//! Stripping of ANSI CSI escape sequences from child log lines.
//!
//! An escape sequence is an ESC character followed by `[` and then any
//! characters up to and including the first ASCII letter. An ESC followed
//! by anything else swallows that one character; a trailing lone ESC is
//! dropped.

use vstd::prelude::*;
use vstd::string::StrSliceExecFns;
use crate::text::chars_to_string;

verus! {

/// The escape character that introduces an ANSI sequence.
pub open spec fn esc_char() -> char {
    '\u{1b}'
}

/// Whether a character is an ASCII letter, the terminator of a CSI sequence.
pub open spec fn is_ascii_letter(c: char) -> bool {
    (65 <= c as u32 && c as u32 <= 90) || (97 <= c as u32 && c as u32 <= 122)
}

/// The stripper's position in the input: copying characters through,
/// just past an ESC, or inside a CSI sequence.
#[derive(Clone, Copy, PartialEq, Eq, Structural, Debug)]
pub enum StripMode {
    Plain,
    AfterEsc,
    InCsi,
}

/// One step of the stripper: the mode after reading `c` in mode `m`.
pub open spec fn strip_next(m: StripMode, c: char) -> StripMode {
    match m {
        StripMode::Plain => if c == esc_char() {
            StripMode::AfterEsc
        } else {
            StripMode::Plain
        },
        StripMode::AfterEsc => if c == '[' {
            StripMode::InCsi
        } else {
            StripMode::Plain
        },
        StripMode::InCsi => if is_ascii_letter(c) {
            StripMode::Plain
        } else {
            StripMode::InCsi
        },
    }
}

/// What a step emits: the character itself when copying through, nothing
/// otherwise.
pub open spec fn strip_emit(m: StripMode, c: char) -> Seq<char> {
    if m == StripMode::Plain && c != esc_char() {
        seq![c]
    } else {
        Seq::empty()
    }
}

/// The output of the stripper on `s` from index `i` onward, starting in
/// mode `m`.
pub open spec fn strip_from(s: Seq<char>, i: int, m: StripMode) -> Seq<char>
    decreases s.len() - i,
{
    if i < 0 || i >= s.len() {
        Seq::empty()
    } else {
        strip_emit(m, s[i]) + strip_from(s, i + 1, strip_next(m, s[i]))
    }
}

/// The ANSI-stripped form of `s`.
pub open spec fn strip_spec(s: Seq<char>) -> Seq<char> {
    strip_from(s, 0, StripMode::Plain)
}

/// Whether `s` contains no ESC character.
pub open spec fn esc_free(s: Seq<char>) -> bool {
    forall|i: int| 0 <= i < s.len() ==> s[i] != esc_char()
}

/// The stripper never emits an ESC character.
proof fn lemma_strip_from_esc_free(s: Seq<char>, i: int, m: StripMode)
    ensures
        esc_free(strip_from(s, i, m)),
    decreases s.len() - i,
{
    if i < 0 || i >= s.len() {
    } else {
        lemma_strip_from_esc_free(s, i + 1, strip_next(m, s[i]));
        let emitted = strip_emit(m, s[i]);
        let rest = strip_from(s, i + 1, strip_next(m, s[i]));
        assert(forall|j: int| 0 <= j < emitted.len() ==> emitted[j] != esc_char());
        assert(forall|j: int|
            0 <= j < (emitted + rest).len() ==> (emitted + rest)[j] != esc_char());
    }
}

/// On ESC-free input, stripping in copy-through mode changes nothing.
proof fn lemma_strip_from_plain_identity(s: Seq<char>, i: int)
    requires
        0 <= i <= s.len(),
        forall|j: int| i <= j < s.len() ==> s[j] != esc_char(),
    ensures
        strip_from(s, i, StripMode::Plain) == s.subrange(i, s.len() as int),
    decreases s.len() - i,
{
    if i >= s.len() {
        assert(strip_from(s, i, StripMode::Plain) =~= s.subrange(i, s.len() as int));
    } else {
        lemma_strip_from_plain_identity(s, i + 1);
        assert(strip_from(s, i, StripMode::Plain) =~= s.subrange(i, s.len() as int));
    }
}

/// `strip` is the identity on strings that contain no ESC.
pub proof fn lemma_strip_identity_on_esc_free(s: Seq<char>)
    requires
        esc_free(s),
    ensures
        strip_spec(s) == s,
{
    lemma_strip_from_plain_identity(s, 0);
    assert(s.subrange(0, s.len() as int) =~= s);
}

/// ANSI stripping is idempotent: stripping a stripped string changes
/// nothing.
pub proof fn lemma_strip_idempotent(s: Seq<char>)
    ensures
        strip_spec(strip_spec(s)) == strip_spec(s),
{
    lemma_strip_from_esc_free(s, 0, StripMode::Plain);
    lemma_strip_identity_on_esc_free(strip_spec(s));
}

/// Removes ANSI CSI escape sequences from a line.
pub fn strip_ansi_codes(s: &str) -> (r: String)
    ensures
        r@ == strip_spec(s@),
{
    let len = s.unicode_len();
    let mut out: Vec<char> = Vec::new();
    let mut mode = StripMode::Plain;
    let mut i: usize = 0;
    while i < len
        invariant
            len == s@.len(),
            i <= len,
            strip_spec(s@) == out@ + strip_from(s@, i as int, mode),
        decreases len - i,
    {
        let c = s.get_char(i);
        match mode {
            StripMode::Plain => {
                if c == '\u{1b}' {
                    mode = StripMode::AfterEsc;
                } else {
                    out.push(c);
                }
            },
            StripMode::AfterEsc => {
                if c == '[' {
                    mode = StripMode::InCsi;
                } else {
                    mode = StripMode::Plain;
                }
            },
            StripMode::InCsi => {
                let u = c as u32;
                if (65 <= u && u <= 90) || (97 <= u && u <= 122) {
                    mode = StripMode::Plain;
                } else {
                    mode = StripMode::InCsi;
                }
            },
        }
        i = i + 1;
    }
    chars_to_string(&out)
}

} // verus!
