//! The plan of a video concatenation: which requests are refused, the
//! concat-demuxer list file, and the FFmpeg arguments of the stream-copy and
//! transcode paths.

use vstd::prelude::*;
use super::ConcatConfig;
use crate::text::{decimal_seq, push_decimal, push_str};
use crate::errors::{MediaError, MediaErrorCode, MediaResult};

verus! {

/// Why a concatenation request is refused before any file is touched, if it
/// is: no inputs, or no output.
pub fn check_concat_request(config: &ConcatConfig) -> (r: Result<(), String>)
    ensures
        config.inputs@.len() == 0 ==> (r matches Err(m) && m@ == "No input files specified"@),
        config.inputs@.len() > 0 && config.output@.len() == 0 ==> (r matches Err(m)
            && m@ == "No output file specified"@),
        r is Ok <==> config.inputs@.len() > 0 && config.output@.len() > 0,
{
    if config.inputs.len() == 0 {
        return Err(String::from_str("No input files specified"));
    }
    if config.output.as_str().is_empty() {
        return Err(String::from_str("No output file specified"));
    }
    Ok(())
}

/// Why a fused concatenation (probe, then concatenate) of `input_count`
/// inputs into `output` is refused before any file is touched, if it is.
pub fn check_fused_concat_request(input_count: usize, output: &str) -> (r: MediaResult<()>)
    ensures
        input_count == 0 ==> (r matches Err(e) && e.code == MediaErrorCode::TimelineEmptyTracks
            && e.message@ == "fused_concat: no input files"@),
        input_count > 0 && output@.len() == 0 ==> (r matches Err(e) && e.code == MediaErrorCode::TimelineInvalidPlan
            && e.message@ == "fused_concat: no output path"@),
        r is Ok <==> input_count > 0 && output@.len() > 0,
        r matches Err(e) ==> e.stage is None && e.path is None && !e.fallback_triggered,
{
    if input_count == 0 {
        return Err(MediaError::new(MediaErrorCode::TimelineEmptyTracks, "fused_concat: no input files"));
    }
    if output.is_empty() {
        return Err(MediaError::new(MediaErrorCode::TimelineInvalidPlan, "fused_concat: no output path"));
    }
    Ok(())
}

/// How a concatenation is carried out.
#[derive(Debug, Clone, Copy, PartialEq, Eq, Structural)]
pub enum ConcatRoute {
    /// A single input is copied to the output as it is.
    CopySingle,
    /// Compatible clips are joined without re-encoding.
    StreamCopy,
    /// The clips are re-encoded.
    Transcode,
}

/// The route of a checked concatenation of `input_count` inputs: one input
/// is copied; several are joined by stream copy when that is allowed and the
/// clips share codec, size and frame rate (`compatible`), and re-encoded
/// otherwise.
pub fn concat_route(input_count: usize, allow_stream_copy: bool, compatible: bool) -> (r: ConcatRoute)
    ensures
        r == (if input_count == 1 {
            ConcatRoute::CopySingle
        } else if allow_stream_copy && compatible {
            ConcatRoute::StreamCopy
        } else {
            ConcatRoute::Transcode
        }),
{
    if input_count == 1 {
        ConcatRoute::CopySingle
    } else if allow_stream_copy && compatible {
        ConcatRoute::StreamCopy
    } else {
        ConcatRoute::Transcode
    }
}

/// The lines `file '<input>'` of a concat-demuxer list.
pub open spec fn concat_list_text(inputs: Seq<String>) -> Seq<char>
    decreases inputs.len(),
{
    if inputs.len() == 0 {
        Seq::empty()
    } else {
        concat_list_text(inputs.drop_last()) + "file '"@ + inputs.last()@ + "'\n"@
    }
}

/// The list of no clips is empty, the list of one clip is its line
/// `file '<path>'`, and the list of two runs of clips is the list of the
/// first followed by the list of the second.
pub proof fn lemma_concat_list_lines(a: Seq<String>, b: Seq<String>, x: String)
    ensures
        concat_list_text(Seq::<String>::empty()) == Seq::<char>::empty(),
        concat_list_text(seq![x]) == "file '"@ + x@ + "'\n"@,
        concat_list_text(a + b) == concat_list_text(a) + concat_list_text(b),
    decreases b.len(),
{
    let one = seq![x];
    assert(one.drop_last() =~= Seq::<String>::empty());
    assert(one.last() == x);
    assert(concat_list_text(one.drop_last()) == Seq::<char>::empty());
    assert(concat_list_text(one) == concat_list_text(one.drop_last()) + "file '"@ + one.last()@ + "'\n"@);
    assert(concat_list_text(one) =~= "file '"@ + x@ + "'\n"@);
    if b.len() == 0 {
        assert(a + b =~= a);
        assert(concat_list_text(a) + concat_list_text(b) =~= concat_list_text(a));
    } else {
        lemma_concat_list_lines(a, b.drop_last(), x);
        assert((a + b).drop_last() =~= a + b.drop_last());
        assert((a + b).last() == b.last());
        assert(concat_list_text(a + b) =~= concat_list_text(a) + concat_list_text(b));
    }
}

/// The concat-demuxer list naming `inputs` in order.
pub fn concat_list_contents(inputs: &Vec<String>) -> (s: String)
    ensures
        s@ == concat_list_text(inputs@),
{
    let mut s = String::new();
    let n = inputs.len();
    let mut i: usize = 0;
    while i < n
        invariant
            n == inputs@.len(),
            i <= n,
            s@ == concat_list_text(inputs@.take(i as int)),
        decreases n - i,
    {
        proof {
            assert(inputs@.take(i + 1).drop_last() =~= inputs@.take(i as int));
        }
        push_str(&mut s, "file '");
        push_str(&mut s, inputs[i].as_str());
        push_str(&mut s, "'\n");
        proof {
            assert(s@ =~= concat_list_text(inputs@.take(i as int)) + "file '"@ + inputs@[i as int]@ + "'\n"@);
        }
        i += 1;
    }
    proof {
        assert(inputs@.take(n as int) =~= inputs@);
    }
    s
}

/// The views of an argument list.
pub open spec fn views(v: Seq<String>) -> Seq<Seq<char>> {
    v.map_values(|s: String| s@)
}

/// Append each string of `items` to `args`.
fn push_all(args: &mut Vec<String>, items: &[&str])
    ensures
        views(final(args)@) == views(old(args)@) + items@.map_values(|s: &str| s@),
{
    let n = items.len();
    let mut i: usize = 0;
    while i < n
        invariant
            n == items@.len(),
            i <= n,
            views(args@) == views(old(args)@) + items@.take(i as int).map_values(|s: &str| s@),
        decreases n - i,
    {
        let ghost before = args@;
        args.push(String::from_str(items[i]));
        proof {
            assert(views(args@) =~= views(before).push(items@[i as int]@));
            assert(items@.take(i + 1).map_values(|s: &str| s@) =~= items@.take(i as int).map_values(
                |s: &str| s@,
            ).push(items@[i as int]@));
        }
        i += 1;
    }
    proof {
        assert(items@.take(n as int) =~= items@);
    }
}

/// The FFmpeg arguments that concatenate the clips listed in `list_path`
/// into `output` without re-encoding.
pub fn stream_copy_args(list_path: &str, output: &str) -> (args: Vec<String>)
    ensures
        views(args@) == seq![
            "-y"@, "-f"@, "concat"@, "-safe"@, "0"@, "-i"@, list_path@, "-c"@, "copy"@,
            "-movflags"@, "+faststart"@, output@,
        ],
{
    let mut args: Vec<String> = Vec::new();
    push_all(&mut args, &["-y", "-f", "concat", "-safe", "0", "-i", list_path, "-c", "copy", "-movflags", "+faststart", output]);
    proof {
        assert(views(args@) =~= seq![
            "-y"@, "-f"@, "concat"@, "-safe"@, "0"@, "-i"@, list_path@, "-c"@, "copy"@,
            "-movflags"@, "+faststart"@, output@,
        ]);
    }
    args
}

/// The FFmpeg arguments that re-encode the clips listed in `list_path` into
/// `output` with `threads` threads, the codec and CRF of `config`.
pub fn transcode_args(list_path: &str, threads: usize, config: &ConcatConfig) -> (args: Vec<String>)
    ensures
        views(args@) == seq![
            "-f"@, "concat"@, "-safe"@, "0"@, "-i"@, list_path@, "-threads"@, decimal_seq(threads as nat),
            "-c:v"@, config.codec@, "-preset"@, "fast"@, "-crf"@, decimal_seq(config.crf as nat),
            "-tune"@, "film"@, "-c:a"@, "aac"@, "-b:a"@, "128k"@, "-movflags"@, "+faststart"@, "-y"@,
            config.output@,
        ],
{
    let mut threads_text = String::new();
    push_decimal(&mut threads_text, threads as u64);
    let mut crf_text = String::new();
    push_decimal(&mut crf_text, config.crf as u64);
    let mut args: Vec<String> = Vec::new();
    push_all(
        &mut args,
        &[
            "-f",
            "concat",
            "-safe",
            "0",
            "-i",
            list_path,
            "-threads",
            threads_text.as_str(),
            "-c:v",
            config.codec.as_str(),
            "-preset",
            "fast",
            "-crf",
            crf_text.as_str(),
            "-tune",
            "film",
            "-c:a",
            "aac",
            "-b:a",
            "128k",
            "-movflags",
            "+faststart",
            "-y",
            config.output.as_str(),
        ],
    );
    proof {
        assert(views(args@) =~= seq![
            "-f"@, "concat"@, "-safe"@, "0"@, "-i"@, list_path@, "-threads"@, decimal_seq(threads as nat),
            "-c:v"@, config.codec@, "-preset"@, "fast"@, "-crf"@, decimal_seq(config.crf as nat),
            "-tune"@, "film"@, "-c:a"@, "aac"@, "-b:a"@, "128k"@, "-movflags"@, "+faststart"@, "-y"@,
            config.output@,
        ]);
    }
    args
}

} // verus!
