//! What the agent panel shows about a selection and about the token budget.
//!
//! Sizes are counted in bytes of the text's UTF-8 encoding, and tokens are
//! estimated from that size alone. Percentages are computed exactly, in
//! integers.

use vstd::prelude::*;
use vstd::arithmetic::div_mod::lemma_fundamental_div_mod;
use vstd::utf8::*;
use crate::decimal::{decimal, decimal_string};
use crate::lines::{count_lines, lemma_lines_by_chars, text_line_count};

verus! {

/// The largest count that the 32-bit fields of this module hold.
pub const MAX_COUNT: usize = 4294967295;

/// What follows a token display once more than four fifths of the context
/// window are used.
pub const WARNING_MARKER: &'static str = " ⚠️";

/// `count`, or the largest 32-bit value where it is larger than that.
pub open spec fn saturated(count: nat) -> nat {
    if count > MAX_COUNT {
        MAX_COUNT as nat
    } else {
        count
    }
}

/// The estimated number of tokens in a text of `len` bytes: one token for
/// every four bytes, rounded down, and never less than one.
pub open spec fn token_estimate(len: nat) -> nat {
    if len / 4 < 1 {
        1
    } else {
        saturated(len / 4)
    }
}

/// The share of `window` that `total` takes, in percent, rounded to the
/// nearest whole number, and to the even one where two are equally near. An
/// empty window counts as unused.
pub open spec fn rounded_percentage(total: nat, window: nat) -> nat {
    if window == 0 {
        0
    } else {
        let whole = (total * 100) / window;
        let rest = (total * 100) % window;
        if 2 * rest > window || (2 * rest == window && whole % 2 == 1) {
            whole + 1
        } else {
            whole
        }
    }
}

/// Whether `total` is more than 80 percent of `window`. Nothing is more
/// than 80 percent of an empty window.
pub open spec fn over_warning_threshold(total: nat, window: nat) -> bool {
    window != 0 && total * 100 > window * 80
}

/// The rounded percentage is a whole number nearest to the exact one: it is
/// off by at most half a percent.
pub proof fn lemma_rounded_percentage_is_nearest(total: nat, window: nat)
    requires
        window > 0,
    ensures
        ({
            let exact = total * 100;
            let shown = rounded_percentage(total, window) * window;
            2 * (shown - exact) <= window && 2 * (exact - shown) <= window
        }),
{
    let scaled = (total * 100) as int;
    let whole = scaled / (window as int);
    let rest = scaled % (window as int);
    lemma_fundamental_div_mod(scaled, window as int);
    assert((whole + 1) * window == whole * window + window) by (nonlinear_arith);
    assert(window * whole == whole * window) by (nonlinear_arith);
}

/// Converts a count to 32 bits, saturating.
fn saturate(count: usize) -> (value: u32)
    ensures
        value == saturated(count as nat),
{
    if count > MAX_COUNT {
        4294967295
    } else {
        count as u32
    }
}

/// Information about token usage
#[derive(Clone, Copy, Debug)]
pub struct TokenInfo {
    /// Approximate tokens in selection
    pub selection_tokens: u32,
    /// Total tokens used in thread
    pub total_tokens: u32,
    /// Model's context window size
    pub context_window: u32,
}

impl Default for TokenInfo {
    /// Nothing selected, nothing used, and no window known yet.
    fn default() -> (info: Self)
        ensures
            info.selection_tokens == 0,
            info.total_tokens == 0,
            info.context_window == 0,
    {
        TokenInfo { selection_tokens: 0, total_tokens: 0, context_window: 0 }
    }
}

impl TokenInfo {
    /// What `format_display` writes.
    pub open spec fn display_text(self) -> Seq<char> {
        let total = self.total_tokens as nat;
        let window = self.context_window as nat;
        let usage = decimal(total) + "/"@ + decimal(window) + " tokens ("@ + decimal(
            rounded_percentage(total, window),
        ) + "%)"@;
        if over_warning_threshold(total, window) {
            usage + WARNING_MARKER@
        } else {
            usage
        }
    }

    /// The percentage of the context window that is used, rounded to a
    /// whole number. With a window of zero it is zero, whatever was used.
    pub fn percentage_rounded(&self) -> (percent: u64)
        ensures
            percent == rounded_percentage(self.total_tokens as nat, self.context_window as nat),
            self.context_window == 0 ==> percent == 0,
    {
        if self.context_window == 0 {
            return 0;
        }
        let window = self.context_window as u64;
        let scaled = self.total_tokens as u64 * 100;
        let whole = scaled / window;
        let rest = scaled % window;
        assert(whole <= scaled) by (nonlinear_arith)
            requires
                whole == scaled / window,
                window >= 1,
                scaled >= 0,
        ;
        if 2 * rest > window || (2 * rest == window && whole % 2 == 1) {
            whole + 1
        } else {
            whole
        }
    }

    /// Whether more than 80 percent of the context window is used.
    pub fn exceeds_warning_threshold(&self) -> (over: bool)
        ensures
            over == over_warning_threshold(self.total_tokens as nat, self.context_window as nat),
    {
        self.context_window != 0 && self.total_tokens as u64 * 100 > self.context_window as u64
            * 80
    }

    /// Estimate tokens from text (rough approximation)
    ///
    /// About four bytes make a token. The estimate is never zero, not even
    /// for the empty text, and stops at the largest 32-bit value.
    pub fn estimate_tokens_from_text(text: &str) -> (tokens: u32)
        ensures
            tokens == token_estimate(encode_utf8(text@).len()),
            tokens >= 1,
            encode_utf8(text@).len() / 4 <= MAX_COUNT ==> tokens == if encode_utf8(text@).len() / 4
                >= 1 {
                encode_utf8(text@).len() / 4
            } else {
                1
            },
    {
        let quarter = text.as_bytes().len() / 4;
        if quarter < 1 {
            1
        } else {
            saturate(quarter)
        }
    }

    /// Format token info as display string
    pub fn format_display(&self) -> (text: String)
        ensures
            text@ == self.display_text(),
    {
        let mut text = decimal_string(self.total_tokens as u64);
        text.append("/");
        text.append(decimal_string(self.context_window as u64).as_str());
        text.append(" tokens (");
        text.append(decimal_string(self.percentage_rounded()).as_str());
        text.append("%)");
        if self.exceeds_warning_threshold() {
            text.append(WARNING_MARKER);
        }
        assert(text@ =~= self.display_text());
        text
    }
}

/// Information about selected code for display
#[derive(Clone, Copy, Debug)]
pub struct SelectionInfo {
    pub char_count: usize,
    pub line_count: u32,
    pub token_estimate: u32,
}

impl SelectionInfo {
    /// What `format_display` writes.
    pub open spec fn display_text(self) -> Seq<char> {
        decimal(self.line_count as nat) + " lines • "@ + decimal(self.char_count as nat)
            + " chars • ~"@ + decimal(self.token_estimate as nat) + " tokens"@
    }

    /// Create selection info from text
    ///
    /// The size is the length in bytes. A line count that does not fit 32
    /// bits is given as the largest value that does.
    pub fn from_text(text: &str) -> (info: Self)
        ensures
            info.char_count == encode_utf8(text@).len(),
            info.line_count == saturated(text_line_count(text@)),
            info.token_estimate == token_estimate(encode_utf8(text@).len()),
    {
        let bytes = text.as_bytes();
        proof {
            lemma_lines_by_chars(text@);
        }
        let char_count = bytes.len();
        let line_count = saturate(count_lines(bytes));
        let token_estimate = TokenInfo::estimate_tokens_from_text(text);

        Self { char_count, line_count, token_estimate }
    }

    /// Format selection info for display
    pub fn format_display(&self) -> (text: String)
        ensures
            text@ == self.display_text(),
    {
        let mut text = decimal_string(self.line_count as u64);
        text.append(" lines • ");
        text.append(decimal_string(self.char_count as u64).as_str());
        text.append(" chars • ~");
        text.append(decimal_string(self.token_estimate as u64).as_str());
        text.append(" tokens");
        assert(text@ =~= self.display_text());
        text
    }
}

} // verus!
