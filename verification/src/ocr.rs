//! The OCR step's decisions: where the two model files are looked for, the
//! error naming both attempted paths when they are absent, and how the
//! recognized lines are aggregated into one report. Loading models and
//! running the engine are the caller's work.

use vstd::prelude::*;

verus! {

/// The primary location of the text-detection model: a sibling examples
/// directory.
pub const PRIMARY_DETECTION_MODEL: &'static str = "../ocrs/ocrs/examples/text-detection.rten";

/// The primary location of the text-recognition model.
pub const PRIMARY_RECOGNITION_MODEL: &'static str = "../ocrs/ocrs/examples/text-recognition.rten";

/// The fallback location of the text-detection model: the working directory.
pub const FALLBACK_DETECTION_MODEL: &'static str = "text-detection.rten";

/// The fallback location of the text-recognition model.
pub const FALLBACK_RECOGNITION_MODEL: &'static str = "text-recognition.rten";

/// Pick the primary location when the file is there, else the fallback.
pub fn choose_model_path(primary: &str, fallback: &str, primary_exists: bool) -> (r: String)
    ensures
        r@ == if primary_exists {
            primary@
        } else {
            fallback@
        },
{
    if primary_exists {
        primary.to_owned()
    } else {
        fallback.to_owned()
    }
}

/// The report when one or both model files are absent, naming both
/// attempted paths.
pub open spec fn missing_models_text(det: Seq<char>, rec: Seq<char>) -> Seq<char> {
    "OCR models not found. Please download models using the download-models.sh script from the ocrs examples directory.\nLooked for:\n- "@
        + det + "\n- "@ + rec
}

/// Decide whether OCR can proceed with the chosen model paths: succeeds
/// exactly when both files are present, else reports both attempted paths.
pub fn check_models(det_path: &str, rec_path: &str, det_exists: bool, rec_exists: bool) -> (r:
    Result<(), String>)
    ensures
        r is Ok <==> det_exists && rec_exists,
        r matches Err(m) ==> m@ == missing_models_text(det_path@, rec_path@),
{
    if det_exists && rec_exists {
        Ok(())
    } else {
        let m = String::from_str(
            "OCR models not found. Please download models using the download-models.sh script from the ocrs examples directory.\nLooked for:\n- ",
        );
        let m = m.concat(det_path);
        let m = m.concat("\n- ");
        let m = m.concat(rec_path);
        Err(m)
    }
}

/// The views of the recognized lines.
pub open spec fn line_views(s: Seq<String>) -> Seq<Seq<char>> {
    s.map_values(|l: String| l@)
}

/// The lines kept for the report: those longer than one character, the
/// rest dropped as likely spurious detections.
pub open spec fn kept_lines(s: Seq<Seq<char>>) -> Seq<Seq<char>>
    decreases s.len(),
{
    if s.len() == 0 {
        Seq::<Seq<char>>::empty()
    } else {
        let prev = kept_lines(s.drop_last());
        if s.last().len() > 1 {
            prev.push(s.last())
        } else {
            prev
        }
    }
}

/// The kept lines joined with newlines.
pub open spec fn joined_lines(s: Seq<Seq<char>>) -> Seq<char>
    decreases s.len(),
{
    if s.len() == 0 {
        Seq::<char>::empty()
    } else if s.len() == 1 {
        s[0]
    } else {
        joined_lines(s.drop_last()) + seq!['\n'] + s.last()
    }
}

/// The whole OCR report: the kept lines joined with newlines, or the fixed
/// notice when nothing (beyond spurious detections) was recognized.
pub open spec fn ocr_report_text(lines: Seq<Seq<char>>) -> Seq<char> {
    if kept_lines(lines).len() == 0 {
        "No text detected in the image."@
    } else {
        joined_lines(kept_lines(lines))
    }
}

proof fn lemma_kept_take_step(s: Seq<Seq<char>>, i: int)
    requires
        0 <= i < s.len(),
    ensures
        kept_lines(s.take(i + 1)) == if s[i].len() > 1 {
            kept_lines(s.take(i)).push(s[i])
        } else {
            kept_lines(s.take(i))
        },
{
    assert(s.take(i + 1).drop_last() =~= s.take(i));
    assert(s.take(i + 1).last() == s[i]);
}

proof fn lemma_joined_push(k: Seq<Seq<char>>, x: Seq<char>)
    ensures
        joined_lines(k.push(x)) == if k.len() == 0 {
            x
        } else {
            joined_lines(k) + seq!['\n'] + x
        },
{
    assert(k.push(x).drop_last() =~= k);
    assert(k.push(x).last() == x);
    if k.len() == 0 {
        assert(k.push(x)[0] == x);
    }
}

/// Aggregate the recognized lines into the report the tool prints.
pub fn aggregate_ocr_lines(lines: &Vec<String>) -> (r: String)
    ensures
        r@ == ocr_report_text(line_views(lines@)),
{
    let ghost lv = line_views(lines@);
    proof {
        reveal_strlit("\n");
        assert("\n"@ =~= seq!['\n']);
    }
    let mut out = String::new();
    let mut any: bool = false;
    let mut i: usize = 0;
    while i < lines.len()
        invariant
            lv == line_views(lines@),
            lv.len() == lines@.len(),
            forall|j: int| 0 <= j < lv.len() ==> lv[j] == lines@[j]@,
            i <= lines@.len(),
            any <==> kept_lines(lv.take(i as int)).len() > 0,
            if any {
                out@ == joined_lines(kept_lines(lv.take(i as int)))
            } else {
                out@ == Seq::<char>::empty()
            },
            "\n"@ == seq!['\n'],
        decreases lines@.len() - i,
    {
        proof {
            lemma_kept_take_step(lv, i as int);
        }
        let line = &lines[i];
        if line.as_str().unicode_len() > 1 {
            proof {
                lemma_joined_push(kept_lines(lv.take(i as int)), lv[i as int]);
            }
            if any {
                out = out.concat("\n").concat(line.as_str());
            } else {
                out = line.clone();
                any = true;
            }
        }
        i = i + 1;
    }
    proof {
        assert(lv.take(lv.len() as int) =~= lv);
    }
    if any {
        out
    } else {
        String::from_str("No text detected in the image.")
    }
}

} // verus!
