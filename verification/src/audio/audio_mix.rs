//! FFmpeg audio filter strings.

use vstd::prelude::*;
use crate::text::{decimal_seq, push_decimal, push_signed_decimal, push_str, signed_decimal_seq};

verus! {

/// `adelay=<d>|<d>`: delay both channels by `delay_ms` milliseconds.
pub fn build_audio_delay_filter(delay_ms: i32) -> (s: String)
    ensures
        s@ == "adelay="@ + signed_decimal_seq(delay_ms as int) + "|"@ + signed_decimal_seq(delay_ms as int),
{
    let mut s = String::from_str("adelay=");
    push_signed_decimal(&mut s, delay_ms as i64);
    push_str(&mut s, "|");
    push_signed_decimal(&mut s, delay_ms as i64);
    s
}

/// The input labels of an audio concat of `n` inputs: `[0:a]` for the first,
/// `[a<i>]` for each later one.
pub open spec fn concat_labels(n: nat) -> Seq<char>
    decreases n,
{
    if n == 0 {
        Seq::empty()
    } else if n == 1 {
        "[0:a]"@
    } else {
        concat_labels((n - 1) as nat) + "[a"@ + decimal_seq((n - 1) as nat) + "]"@
    }
}

/// The filter that concatenates the audio of `inputs`:
/// `[0:a][a1]...[a<n-1>]concat=n=<n>:v=0:a=1[aout]`.
pub fn build_concat_audio_filter(inputs: &[String], _output_has_video: bool) -> (s: String)
    ensures
        s@ == concat_labels(inputs@.len()) + "concat=n="@ + decimal_seq(inputs@.len()) + ":v=0:a=1[aout]"@,
{
    let n = inputs.len();
    let mut filter = String::new();
    let mut i: usize = 0;
    while i < n
        invariant
            n == inputs@.len(),
            i <= n,
            filter@ == concat_labels(i as nat),
        decreases n - i,
    {
        if i > 0 {
            push_str(&mut filter, "[a");
            push_decimal(&mut filter, i as u64);
            push_str(&mut filter, "]");
            proof {
                assert(filter@ =~= concat_labels(i as nat) + "[a"@ + decimal_seq(i as nat) + "]"@);
            }
        } else {
            push_str(&mut filter, "[0:a]");
            proof {
                assert(filter@ =~= concat_labels(1));
            }
        }
        i += 1;
    }
    push_str(&mut filter, "concat=n=");
    push_decimal(&mut filter, n as u64);
    push_str(&mut filter, ":v=0:a=1[aout]");
    proof {
        assert(filter@ =~= concat_labels(n as nat) + "concat=n="@ + decimal_seq(n as nat) + ":v=0:a=1[aout]"@);
    }
    filter
}

} // verus!
