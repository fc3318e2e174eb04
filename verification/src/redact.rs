//! Safe text for logs and reports: NUL characters removed, a byte budget respected at a
//! character boundary, and credential-like content withheld.

use vstd::prelude::*;
use crate::codex::{begins, find_text, lower_chars, lowercase, occurs};
use crate::text::{chars_of, is_whitespace, is_ws, push_char, utf8};

verus! {

/// How many bytes UTF-8 needs for a character.
pub open spec fn width(c: char) -> nat {
    vstd::utf8::encode_scalar(c as u32).len()
}

proof fn utf8_concat(a: Seq<char>, b: Seq<char>)
    ensures
        utf8(a + b) == utf8(a) + utf8(b),
    decreases a.len(),
{
    if a.len() == 0 {
        assert(a + b =~= b);
        assert(utf8(a) =~= Seq::<u8>::empty());
        assert(utf8(a) + utf8(b) =~= utf8(b));
    } else {
        utf8_concat(a.drop_first(), b);
        assert((a + b).drop_first() =~= a.drop_first() + b);
        assert((a + b)[0] == a[0]);
        assert(utf8(a + b) =~= vstd::utf8::encode_scalar(a[0] as u32) + utf8(a.drop_first() + b));
    }
}

proof fn utf8_push(a: Seq<char>, c: char)
    ensures
        utf8(a.push(c)).len() == utf8(a).len() + width(c),
{
    utf8_concat(a, seq![c]);
    assert(a.push(c) =~= a + seq![c]);
    assert(seq![c].drop_first() =~= Seq::<char>::empty());
    assert(utf8(seq![c]) =~= vstd::utf8::encode_scalar(c as u32) + utf8(Seq::<char>::empty()));
    assert(utf8(seq![c]) =~= vstd::utf8::encode_scalar(c as u32));
}

fn char_width(c: char) -> (r: usize)
    ensures
        r == width(c),
        1 <= r <= 4,
{
    let v = c as u32;
    if v <= 0x7f {
        1
    } else if v <= 0x7ff {
        2
    } else if v <= 0xffff {
        3
    } else {
        4
    }
}

/// The text with its NUL characters removed.
pub open spec fn strip_nul(s: Seq<char>) -> Seq<char>
    decreases s.len(),
{
    if s.len() == 0 {
        Seq::empty()
    } else if s.last() == '\0' {
        strip_nul(s.drop_last())
    } else {
        strip_nul(s.drop_last()).push(s.last())
    }
}

/// How many leading characters fit in `max` bytes.
pub open spec fn fitting(s: Seq<char>, max: int) -> nat
    decreases s.len(),
{
    if s.len() == 0 || width(s[0]) > max {
        0
    } else {
        1 + fitting(s.drop_first(), max - width(s[0]))
    }
}

/// The text as it may be shown within `max` bytes: NULs removed and, when it is longer,
/// its longest character prefix within the budget followed by an ellipsis.
pub open spec fn safe_view(s: Seq<char>, max: nat) -> Seq<char> {
    let c = strip_nul(s);
    if utf8(c).len() <= max {
        c
    } else {
        c.take(fitting(c, max as int) as int).push('\u{2026}')
    }
}

proof fn fitting_step(s: Seq<char>, max: int, k: int, used: int)
    requires
        0 <= k < s.len(),
        used == utf8(s.take(k)).len(),
        fitting(s, max) >= k,
        fitting(s, max) == k + fitting(s.skip(k), max - used),
    ensures
        used + width(s[k]) <= max ==> fitting(s, max) == k + 1 + fitting(s.skip(k + 1), max - used - width(s[k])),
        used + width(s[k]) > max ==> fitting(s, max) == k,
{
    assert(s.skip(k)[0] == s[k]);
    assert(s.skip(k).drop_first() =~= s.skip(k + 1));
}

/// Removes NULs and keeps a text within `max` bytes, cutting at a character boundary and
/// marking the cut with an ellipsis.
pub fn safe_text(value: &str, max: usize) -> (r: String)
    ensures
        r@ == safe_view(value@, max as nat),
{
    let chars = chars_of(value);
    let mut kept: Vec<char> = Vec::new();
    let mut bytes: u128 = 0;
    let mut i: usize = 0;
    while i < chars.len()
        invariant
            chars@ == value@,
            i <= chars@.len(),
            kept@ == strip_nul(value@.take(i as int)),
            bytes == utf8(kept@).len(),
            bytes <= 4 * i,
            i <= value@.len(),
        decreases chars@.len() - i,
    {
        let c = chars[i];
        proof {
            assert(value@.take(i as int + 1).drop_last() =~= value@.take(i as int));
        }
        if c != '\0' {
            proof {
                utf8_push(kept@, c);
            }
            bytes = bytes + char_width(c) as u128;
            kept.push(c);
        }
        i = i + 1;
    }
    proof {
        assert(value@.take(chars@.len() as int) =~= value@);
    }
    let ghost c = kept@;
    let mut out = String::new();
    if bytes <= max as u128 {
        let mut j: usize = 0;
        while j < kept.len()
            invariant
                j <= kept@.len(),
                out@ == kept@.take(j as int),
            decreases kept@.len() - j,
        {
            push_char(&mut out, kept[j]);
            proof {
                assert(kept@.take(j as int + 1) =~= kept@.take(j as int).push(kept@[j as int]));
            }
            j = j + 1;
        }
        proof {
            assert(kept@.take(kept@.len() as int) =~= kept@);
        }
        return out;
    }
    let mut k: usize = 0;
    let mut used: usize = 0;
    proof {
        assert(c.take(0) =~= Seq::<char>::empty());
        assert(c.skip(0) =~= c);
    }
    while k < kept.len()
        invariant
            c == kept@,
            k <= kept@.len(),
            used == utf8(c.take(k as int)).len(),
            used <= max,
            fitting(c, max as int) >= k,
            fitting(c, max as int) == k + fitting(c.skip(k as int), max - used),
            out@ == c.take(k as int),
        ensures
            c == kept@,
            fitting(c, max as int) == k,
            out@ == c.take(k as int),
        decreases kept@.len() - k,
    {
        let w = char_width(kept[k]);
        proof {
            fitting_step(c, max as int, k as int, used as int);
        }
        if w > max - used {
            break;
        }
        proof {
            if k + 1 == kept@.len() {
                assert(c.skip(k as int + 1) =~= Seq::<char>::empty());
            }
        }
        push_char(&mut out, kept[k]);
        proof {
            assert(c.take(k as int + 1) =~= c.take(k as int).push(c[k as int]));
            utf8_push(c.take(k as int), c[k as int]);
        }
        used = used + w;
        k = k + 1;
    }
    push_char(&mut out, '\u{2026}');
    out
}

/// Fragments that mark text as credential-like, matched in ASCII lowercase.
pub open spec fn credential_markers() -> Seq<Seq<char>> {
    seq![
        "bearer "@,
        "api_key="@,
        "apikey="@,
        "api-key:"@,
        "authorization:"@,
        "secret="@,
        "token="@,
    ]
}

/// The run of non-white-space characters starting at `i`.
pub open spec fn word_at(s: Seq<char>, i: int) -> Seq<char>
    decreases s.len() - i,
{
    if i < 0 || i >= s.len() || is_ws(s[i]) {
        Seq::empty()
    } else {
        seq![s[i]] + word_at(s, i + 1)
    }
}

/// Whether a word starting at `i` looks like a secret key.
pub open spec fn key_word_at(s: Seq<char>, i: int) -> bool {
    &&& 0 <= i < s.len()
    &&& (i == 0 || is_ws(s[i - 1]))
    &&& !is_ws(s[i])
    &&& begins(word_at(s, i), "sk-"@)
    &&& utf8(word_at(s, i)).len() > 12
}

/// Whether a text looks like it holds a credential.
pub open spec fn credential_like(s: Seq<char>) -> bool {
    (exists|m: int| 0 <= m < credential_markers().len() && occurs(lowercase(s), #[trigger] credential_markers()[m]))
        || (exists|i: int| #[trigger] key_word_at(s, i))
}

/// A text whose ASCII lowercase holds any of the credential markers is credential-like,
/// so `redact_text` replaces it whole.
pub proof fn marked_texts_are_credential_like(s: Seq<char>)
    ensures
        occurs(lowercase(s), "bearer "@) ==> credential_like(s),
        occurs(lowercase(s), "api_key="@) ==> credential_like(s),
        occurs(lowercase(s), "apikey="@) ==> credential_like(s),
        occurs(lowercase(s), "api-key:"@) ==> credential_like(s),
        occurs(lowercase(s), "authorization:"@) ==> credential_like(s),
        occurs(lowercase(s), "secret="@) ==> credential_like(s),
        occurs(lowercase(s), "token="@) ==> credential_like(s),
{
    let ms = credential_markers();
    assert(ms[0] == "bearer "@);
    assert(ms[1] == "api_key="@);
    assert(ms[2] == "apikey="@);
    assert(ms[3] == "api-key:"@);
    assert(ms[4] == "authorization:"@);
    assert(ms[5] == "secret="@);
    assert(ms[6] == "token="@);
}

proof fn word_is_run(s: Seq<char>, i: int, j: int)
    requires
        0 <= i <= j <= s.len(),
        forall|k: int| i <= k < j ==> !is_ws(#[trigger] s[k]),
        j == s.len() || is_ws(s[j]),
    ensures
        word_at(s, i) == s.subrange(i, j),
    decreases j - i,
{
    if i < j {
        word_is_run(s, i + 1, j);
        assert(seq![s[i]] + s.subrange(i + 1, j) =~= s.subrange(i, j));
    } else {
        assert(s.subrange(i, j) =~= Seq::<char>::empty());
    }
}

fn marker(m: usize) -> (r: &'static str)
    requires
        m < 7,
    ensures
        r@ == credential_markers()[m as int],
{
    match m {
        0 => "bearer ",
        1 => "api_key=",
        2 => "apikey=",
        3 => "api-key:",
        4 => "authorization:",
        5 => "secret=",
        _ => "token=",
    }
}

fn has_marker(text: &str) -> (r: bool)
    ensures
        r == (exists|m: int| 0 <= m < credential_markers().len() && occurs(lowercase(text@), #[trigger] credential_markers()[m])),
{
    let lowered = lower_chars(text);
    let mut m: usize = 0;
    while m < 7
        invariant
            lowered@ == lowercase(text@),
            m <= 7,
            forall|k: int| 0 <= k < m ==> !occurs(lowercase(text@), #[trigger] credential_markers()[k]),
        decreases 7 - m,
    {
        let needle = chars_of(marker(m));
        if find_text(&lowered, &needle) {
            return true;
        }
        m = m + 1;
    }
    false
}

fn has_key_word(text: &str) -> (r: bool)
    ensures
        r == (exists|i: int| #[trigger] key_word_at(text@, i)),
{
    let s = chars_of(text);
    let n = s.len();
    let mut i: usize = 0;
    while i < n
        invariant
            s@ == text@,
            n == s@.len(),
            i <= n,
            forall|k: int| 0 <= k < i ==> !#[trigger] key_word_at(text@, k),
        decreases n - i,
    {
        let start = i == 0 || is_whitespace(s[i - 1]);
        if start && !is_whitespace(s[i]) {
            let mut j: usize = i;
            let mut bytes: u128 = 0;
            while j < n && !is_whitespace(s[j])
                invariant
                    s@ == text@,
                    n == s@.len(),
                    i <= j <= n,
                    forall|k: int| i <= k < j ==> !is_ws(#[trigger] s@[k]),
                    bytes == utf8(s@.subrange(i as int, j as int)).len(),
                    bytes <= 4 * (j - i),
                decreases n - j,
            {
                proof {
                    assert(s@.subrange(i as int, j as int + 1) =~= s@.subrange(i as int, j as int).push(s@[j as int]));
                    utf8_push(s@.subrange(i as int, j as int), s@[j as int]);
                }
                bytes = bytes + char_width(s[j]) as u128;
                j = j + 1;
            }
            proof {
                word_is_run(s@, i as int, j as int);
            }
            let prefix = j - i >= 3 && s[i] == 's' && s[i + 1] == 'k' && s[i + 2] == '-';
            proof {
                reveal_strlit("sk-");
                let w = s@.subrange(i as int, j as int);
                if prefix {
                    assert(w.subrange(0, 3) =~= "sk-"@);
                } else if w.len() >= 3 {
                    assert(w.subrange(0, 3)[0] == w[0] && w.subrange(0, 3)[1] == w[1] && w.subrange(0, 3)[2] == w[2]);
                }
            }
            if prefix && bytes > 12 {
                proof {
                    assert(key_word_at(text@, i as int));
                }
                return true;
            }
        }
        i = i + 1;
    }
    false
}

/// The placeholder shown instead of credential-like text.
pub open spec fn redacted() -> Seq<char> {
    "[redacted credential-like content]"@
}

/// Text safe to store in logs and reports: withheld entirely when it looks like it holds
/// a credential, else cut to `max` bytes as `safe_text` does.
pub fn redact_text(text: &str, max: usize) -> (r: String)
    ensures
        credential_like(text@) ==> r@ == redacted(),
        !credential_like(text@) ==> r@ == safe_view(text@, max as nat),
{
    if has_marker(text) || has_key_word(text) {
        "[redacted credential-like content]".to_owned()
    } else {
        safe_text(text, max)
    }
}

} // verus!
