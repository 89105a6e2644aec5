//! How decoded answers are presented: the output mode selected by the
//! caller, and the formatting of time-to-live durations.

use vstd::prelude::*;
use crate::text::ascii_chars;
use crate::text::ascii_to_string;
use crate::text::dec_ascii;
use crate::text::pad2_ascii;
use crate::text::push_dec_u32;
use crate::text::push_pad2_u32;
use crate::text::lemma_dec_ascii_digits;

verus! {

/// How to format the output data.
#[derive(PartialEq, Eq, Structural, Debug, Copy, Clone)]
pub enum OutputFormat {
    /// Format the output as plain text, optionally adding ANSI colours.
    Text(UseColours, TextFormat),

    /// Format the output as one line of plain text.
    Short(TextFormat),

    /// Format the entries as JSON.
    JSON,
}

/// When to use colours in the output.
#[derive(PartialEq, Eq, Structural, Debug, Copy, Clone)]
pub enum UseColours {
    /// Always use colours.
    Always,

    /// Use colours if output is to a terminal; otherwise, do not.
    Automatic,

    /// Never use colours.
    Never,
}

/// The section of the DNS response that a record was read from.
#[derive(PartialEq, Eq, Structural, Debug, Copy, Clone)]
pub enum Section {
    /// This record was found in the **Answer** section.
    Answer,
}

/// Options that govern how text should be rendered in record summaries.
#[derive(PartialEq, Eq, Structural, Debug, Copy, Clone)]
pub struct TextFormat {
    /// Whether to format durations as days, hours, minutes, and
    /// seconds.
    pub format_durations: bool,
}

/// The ASCII rendering of a duration in days, hours, minutes and
/// seconds, skipping leading zero units, as `format_duration_hms`
/// writes it.
pub open spec fn spec_duration_hms(s: int) -> Seq<u8> {
    if s < 60 {
        dec_ascii(s) + seq![115u8]
    } else if s < 3600 {
        dec_ascii(s / 60) + seq![109u8] + pad2_ascii(s % 60) + seq![115u8]
    } else if s < 86400 {
        dec_ascii(s / 3600) + seq![104u8] + pad2_ascii((s % 3600) / 60) + seq![109u8] + pad2_ascii(
            s % 60,
        ) + seq![115u8]
    } else {
        dec_ascii(s / 86400) + seq![100u8] + dec_ascii((s % 86400) / 3600) + seq![104u8]
            + pad2_ascii((s % 3600) / 60) + seq![109u8] + pad2_ascii(s % 60) + seq![115u8]
    }
}

/// Joining two runs of ASCII bytes gives a run of ASCII bytes.
proof fn lemma_ascii_concat(a: Seq<u8>, b: Seq<u8>)
    requires
        forall|i: int| 0 <= i < a.len() ==> a[i] < 128,
        forall|i: int| 0 <= i < b.len() ==> b[i] < 128,
    ensures
        forall|i: int| 0 <= i < (a + b).len() ==> (a + b)[i] < 128,
{
    assert forall|i: int| 0 <= i < (a + b).len() implies (a + b)[i] < 128 by {
        if i < a.len() {
            assert((a + b)[i] == a[i]);
        } else {
            assert((a + b)[i] == b[i - a.len()]);
        }
    }
}

/// The zero-padded rendering of a small number is ASCII.
proof fn lemma_pad2_ascii_digits(n: int)
    requires
        0 <= n,
    ensures
        forall|i: int| 0 <= i < pad2_ascii(n).len() ==> pad2_ascii(n)[i] < 128,
{
    lemma_dec_ascii_digits(n);
}

/// Every byte of the duration rendering is ASCII.
proof fn lemma_duration_hms_ascii(s: int)
    requires
        0 <= s,
    ensures
        forall|i: int| 0 <= i < spec_duration_hms(s).len() ==> spec_duration_hms(s)[i] < 128,
{
    lemma_dec_ascii_digits(s);
    if s < 60 {
        lemma_ascii_concat(dec_ascii(s), seq![115u8]);
    } else if s < 3600 {
        lemma_dec_ascii_digits(s / 60);
        lemma_pad2_ascii_digits(s % 60);
        lemma_ascii_concat(dec_ascii(s / 60), seq![109u8]);
        lemma_ascii_concat(dec_ascii(s / 60) + seq![109u8], pad2_ascii(s % 60));
        lemma_ascii_concat(dec_ascii(s / 60) + seq![109u8] + pad2_ascii(s % 60), seq![115u8]);
    } else if s < 86400 {
        lemma_dec_ascii_digits(s / 3600);
        lemma_pad2_ascii_digits((s % 3600) / 60);
        lemma_pad2_ascii_digits(s % 60);
        lemma_ascii_concat(dec_ascii(s / 3600), seq![104u8]);
        lemma_ascii_concat(dec_ascii(s / 3600) + seq![104u8], pad2_ascii((s % 3600) / 60));
        lemma_ascii_concat(
            dec_ascii(s / 3600) + seq![104u8] + pad2_ascii((s % 3600) / 60),
            seq![109u8],
        );
        lemma_ascii_concat(
            dec_ascii(s / 3600) + seq![104u8] + pad2_ascii((s % 3600) / 60) + seq![109u8],
            pad2_ascii(s % 60),
        );
        lemma_ascii_concat(
            dec_ascii(s / 3600) + seq![104u8] + pad2_ascii((s % 3600) / 60) + seq![109u8]
                + pad2_ascii(s % 60),
            seq![115u8],
        );
    } else {
        lemma_dec_ascii_digits(s / 86400);
        lemma_dec_ascii_digits((s % 86400) / 3600);
        lemma_pad2_ascii_digits((s % 3600) / 60);
        lemma_pad2_ascii_digits(s % 60);
        lemma_ascii_concat(dec_ascii(s / 86400), seq![100u8]);
        lemma_ascii_concat(dec_ascii(s / 86400) + seq![100u8], dec_ascii((s % 86400) / 3600));
        lemma_ascii_concat(
            dec_ascii(s / 86400) + seq![100u8] + dec_ascii((s % 86400) / 3600),
            seq![104u8],
        );
        lemma_ascii_concat(
            dec_ascii(s / 86400) + seq![100u8] + dec_ascii((s % 86400) / 3600) + seq![104u8],
            pad2_ascii((s % 3600) / 60),
        );
        lemma_ascii_concat(
            dec_ascii(s / 86400) + seq![100u8] + dec_ascii((s % 86400) / 3600) + seq![104u8]
                + pad2_ascii((s % 3600) / 60),
            seq![109u8],
        );
        lemma_ascii_concat(
            dec_ascii(s / 86400) + seq![100u8] + dec_ascii((s % 86400) / 3600) + seq![104u8]
                + pad2_ascii((s % 3600) / 60) + seq![109u8],
            pad2_ascii(s % 60),
        );
        lemma_ascii_concat(
            dec_ascii(s / 86400) + seq![100u8] + dec_ascii((s % 86400) / 3600) + seq![104u8]
                + pad2_ascii((s % 3600) / 60) + seq![109u8] + pad2_ascii(s % 60),
            seq![115u8],
        );
    }
}

/// Formats a duration as days, hours, minutes, and seconds, skipping
/// leading zero units.
pub fn format_duration_hms(seconds: u32) -> (r: String)
    ensures
        r@ == ascii_chars(spec_duration_hms(seconds as int)),
{
    let mut out: Vec<u8> = Vec::new();
    if seconds < 60 {
        push_dec_u32(seconds, &mut out);
        out.push(115);
    } else if seconds < 3600 {
        push_dec_u32(seconds / 60, &mut out);
        out.push(109);
        push_pad2_u32(seconds % 60, &mut out);
        out.push(115);
    } else if seconds < 86400 {
        push_dec_u32(seconds / 3600, &mut out);
        out.push(104);
        push_pad2_u32((seconds % 3600) / 60, &mut out);
        out.push(109);
        push_pad2_u32(seconds % 60, &mut out);
        out.push(115);
    } else {
        push_dec_u32(seconds / 86400, &mut out);
        out.push(100);
        push_dec_u32((seconds % 86400) / 3600, &mut out);
        out.push(104);
        push_pad2_u32((seconds % 3600) / 60, &mut out);
        out.push(109);
        push_pad2_u32(seconds % 60, &mut out);
        out.push(115);
    }
    proof {
        assert(out@ =~= spec_duration_hms(seconds as int));
        lemma_duration_hms_ascii(seconds as int);
    }
    ascii_to_string(out)
}

impl TextFormat {
    /// Formats a duration depending on whether it should be displayed
    /// as computed units, or as plain seconds.
    pub fn format_duration(self, seconds: u32) -> (r: String)
        ensures
            self.format_durations ==> r@ == ascii_chars(spec_duration_hms(seconds as int)),
            !self.format_durations ==> r@ == ascii_chars(dec_ascii(seconds as int)),
    {
        if self.format_durations {
            format_duration_hms(seconds)
        } else {
            crate::text::format_u32(seconds)
        }
    }
}

} // verus!
