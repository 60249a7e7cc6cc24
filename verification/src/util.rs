//! Validation of user-supplied names, shell quoting, and section extraction
//! from delimited remote output.

use vstd::prelude::*;
use crate::error::{ErrorView, SkulkError};
use crate::text::{
    chars_eq, contains, contains_str, ends_with, find_chars, first_match, from_chars_range,
    is_first_match, lemma_first_match, lowercase, owned, starts_with, to_chars, to_lowercase, trim,
    trim_str,
};

verus! {

/// The number of bytes of the UTF-8 encoding of `s` (`str::len`).
pub open spec fn byte_len(s: Seq<char>) -> nat {
    vstd::utf8::encode_utf8(s).len()
}

/// An ASCII letter or digit.
pub open spec fn is_ascii_alnum(c: char) -> bool {
    ('a' <= c && c <= 'z') || ('A' <= c && c <= 'Z') || ('0' <= c && c <= '9')
}

/// A character allowed in an agent name: `[A-Za-z0-9_/-]`.
pub open spec fn is_name_char(c: char) -> bool {
    is_ascii_alnum(c) || c == '-' || c == '_' || c == '/'
}

/// A character allowed in a model name: `[A-Za-z0-9._/-]`.
pub open spec fn is_model_char(c: char) -> bool {
    is_ascii_alnum(c) || c == '-' || c == '_' || c == '.' || c == '/'
}

/// The first character of `s` failing `ok`.
pub open spec fn first_bad(s: Seq<char>, ok: spec_fn(char) -> bool) -> char {
    let i = choose|i: int| 0 <= i < s.len() && !ok(s[i]) && forall|j: int| 0 <= j < i ==> ok(s[j]);
    s[i]
}

/// What `validate_name` answers: the checks in order, each with its message.
pub open spec fn validate_name_spec(name: Seq<char>) -> Result<(), Seq<char>> {
    if name.len() == 0 {
        Err("Agent name cannot be empty."@)
    } else if byte_len(name) > 100 {
        Err("Agent name must be 100 characters or fewer."@)
    } else if name[0] == '-' {
        Err("Agent name cannot start with a hyphen."@)
    } else if name[0] == '/' {
        Err("Agent name cannot start with a slash."@)
    } else if name.last() == '-' {
        Err("Agent name cannot end with a hyphen."@)
    } else if name.last() == '/' {
        Err("Agent name cannot end with a slash."@)
    } else if contains(name, "--"@) {
        Err("Agent name cannot contain consecutive hyphens."@)
    } else if contains(name, "//"@) {
        Err("Agent name cannot contain consecutive slashes."@)
    } else if exists|i: int| 0 <= i < name.len() && !is_name_char(name[i]) {
        Err("Invalid character '"@ + seq![first_bad(name, |c: char| is_name_char(c))]
            + "' in agent name. Only letters, digits, hyphens, underscores, and slashes allowed."@)
    } else {
        Ok(())
    }
}

/// A character of a plain agent name: `[a-z0-9-]`.
pub open spec fn is_plain_name_char(c: char) -> bool {
    ('a' <= c && c <= 'z') || ('0' <= c && c <= '9') || c == '-'
}

/// What `validate_plain_name` answers: the checks of `validate_name`, then
/// every character in `[a-z0-9-]`.
pub open spec fn plain_name_spec(name: Seq<char>) -> Result<(), Seq<char>> {
    match validate_name_spec(name) {
        Err(m) => Err(m),
        Ok(()) => if exists|i: int| 0 <= i < name.len() && !is_plain_name_char(name[i]) {
            Err("Invalid character '"@ + seq![first_bad(name, |c: char| is_plain_name_char(c))]
                + "' in agent name. Only lowercase letters, digits, and hyphens allowed."@)
        } else {
            Ok(())
        },
    }
}

/// What `validate_model` answers: the checks in order, each with its message.
pub open spec fn validate_model_spec(model: Seq<char>) -> Result<(), Seq<char>> {
    if model.len() == 0 {
        Err("Model name cannot be empty."@)
    } else if byte_len(model) > 64 {
        Err("Model name must be 64 characters or fewer."@)
    } else if exists|i: int| 0 <= i < model.len() && !is_model_char(model[i]) {
        Err("Invalid character '"@ + seq![first_bad(model, |c: char| is_model_char(c))]
            + "' in model name. Only letters, digits, hyphens, underscores, dots, and slashes allowed."@)
    } else {
        Ok(())
    }
}

/// A result of validation, over error views.
pub open spec fn as_validation(r: Result<(), SkulkError>) -> Result<(), Seq<char>> {
    match r {
        Ok(()) => Ok(()),
        Err(e) => match e@ {
            ErrorView::Validation(m) => Err(m),
            _ => Err(Seq::empty()),
        },
    }
}

/// The index of the first character of `v` failing `is_name_char`
/// (or `is_model_char` when `model`).
fn first_bad_index(v: &[char], model: bool) -> (r: Option<usize>)
    ensures
        r matches Some(i) ==> i < v@.len() && (if model {
            !is_model_char(v@[i as int])
        } else {
            !is_name_char(v@[i as int])
        }) && forall|j: int|
            0 <= j < i ==> (if model {
                is_model_char(#[trigger] v@[j])
            } else {
                is_name_char(v@[j])
            }),
        r is None ==> forall|j: int|
            0 <= j < v@.len() ==> (if model {
                is_model_char(#[trigger] v@[j])
            } else {
                is_name_char(v@[j])
            }),
{
    let mut i: usize = 0;
    while i < v.len()
        invariant
            i <= v.len(),
            forall|j: int|
                0 <= j < i ==> (if model {
                    is_model_char(#[trigger] v@[j])
                } else {
                    is_name_char(v@[j])
                }),
        decreases v.len() - i,
    {
        let c = v[i];
        let alnum = ('a' <= c && c <= 'z') || ('A' <= c && c <= 'Z') || ('0' <= c && c <= '9');
        let ok = alnum || c == '-' || c == '_' || c == '/' || (model && c == '.');
        if !ok {
            return Some(i);
        }
        i = i + 1;
    }
    None
}

/// The message for the first invalid character `c` of a name or model.
fn invalid_char_message(c_at: &[char], i: usize, model: bool) -> (r: String)
    requires
        i < c_at.len(),
    ensures
        r@ == "Invalid character '"@ + seq![c_at@[i as int]] + (if model {
            "' in model name. Only letters, digits, hyphens, underscores, dots, and slashes allowed."@
        } else {
            "' in agent name. Only letters, digits, hyphens, underscores, and slashes allowed."@
        }),
{
    let mut m = owned("Invalid character '");
    let ch = from_chars_range(c_at, i, i + 1);
    assert(c_at@.subrange(i as int, i + 1) =~= seq![c_at@[i as int]]);
    m.append(ch.as_str());
    if model {
        m.append(
            "' in model name. Only letters, digits, hyphens, underscores, dots, and slashes allowed.",
        );
    } else {
        m.append("' in agent name. Only letters, digits, hyphens, underscores, and slashes allowed.");
    }
    m
}

/// Validate an agent name: `[a-zA-Z0-9/_-]`, 1-100 bytes, not starting or
/// ending with `-` or `/`, without `--` or `//`.
pub fn validate_name(name: &str) -> (r: Result<(), SkulkError>)
    ensures
        as_validation(r) == validate_name_spec(name@),
        r matches Err(e) ==> e@ is Validation,
{
    let v = to_chars(name);
    if v.len() == 0 {
        return Err(SkulkError::Validation(owned("Agent name cannot be empty.")));
    }
    if name.as_bytes().len() > 100 {
        return Err(SkulkError::Validation(owned("Agent name must be 100 characters or fewer.")));
    }
    if v[0] == '-' {
        return Err(SkulkError::Validation(owned("Agent name cannot start with a hyphen.")));
    }
    if v[0] == '/' {
        return Err(SkulkError::Validation(owned("Agent name cannot start with a slash.")));
    }
    if v[v.len() - 1] == '-' {
        return Err(SkulkError::Validation(owned("Agent name cannot end with a hyphen.")));
    }
    if v[v.len() - 1] == '/' {
        return Err(SkulkError::Validation(owned("Agent name cannot end with a slash.")));
    }
    if contains_str(name, "--") {
        return Err(
            SkulkError::Validation(owned("Agent name cannot contain consecutive hyphens.")),
        );
    }
    if contains_str(name, "//") {
        return Err(
            SkulkError::Validation(owned("Agent name cannot contain consecutive slashes.")),
        );
    }
    match first_bad_index(v.as_slice(), false) {
        Some(i) => {
            let m = invalid_char_message(v.as_slice(), i, false);
            proof {
                let ok = |c: char| is_name_char(c);
                let k = choose|k: int|
                    0 <= k < v@.len() && !ok(v@[k]) && forall|j: int| 0 <= j < k ==> ok(v@[j]);
                assert(!is_name_char(v@[i as int]));
                assert(k == i) by {
                    if k < i {
                        assert(is_name_char(v@[k]));
                    } else if k > i {
                        assert(ok(v@[i as int]));
                    }
                }
            }
            Err(SkulkError::Validation(m))
        },
        None => Ok(()),
    }
}

/// Validate a name that must also stand for itself in paths and shell
/// words on the remote: the checks of `validate_name`, then only lowercase
/// letters, digits and hyphens.
pub fn validate_plain_name(name: &str) -> (r: Result<(), SkulkError>)
    ensures
        as_validation(r) == plain_name_spec(name@),
        r matches Err(e) ==> e@ is Validation,
{
    match validate_name(name) {
        Err(e) => Err(e),
        Ok(()) => {
            let v = to_chars(name);
            let mut i: usize = 0;
            while i < v.len()
                invariant
                    i <= v.len(),
                    v@ == name@,
                    validate_name_spec(name@) is Ok,
                    forall|j: int| 0 <= j < i ==> is_plain_name_char(#[trigger] v@[j]),
                decreases v.len() - i,
            {
                let c = v[i];
                if !(('a' <= c && c <= 'z') || ('0' <= c && c <= '9') || c == '-') {
                    let mut m = owned("Invalid character '");
                    let ch = from_chars_range(v.as_slice(), i, i + 1);
                    assert(v@.subrange(i as int, i + 1) =~= seq![v@[i as int]]);
                    m.append(ch.as_str());
                    m.append("' in agent name. Only lowercase letters, digits, and hyphens allowed.");
                    proof {
                        let ok = |c: char| is_plain_name_char(c);
                        let k = choose|k: int|
                            0 <= k < v@.len() && !ok(v@[k]) && forall|j: int| 0 <= j < k ==> ok(v@[j]);
                        assert(!is_plain_name_char(v@[i as int]));
                        assert(k == i) by {
                            if k < i {
                                assert(is_plain_name_char(v@[k]));
                            } else if k > i {
                                assert(ok(v@[i as int]));
                            }
                        }
                        assert(first_bad(name@, |c: char| is_plain_name_char(c)) == v@[i as int]);
                        assert(!is_plain_name_char(name@[i as int]));
                        assert(m@ == "Invalid character '"@ + seq![v@[i as int]]
                            + "' in agent name. Only lowercase letters, digits, and hyphens allowed."@);
                    }
                    return Err(SkulkError::Validation(m));
                }
                i = i + 1;
            }
            Ok(())
        },
    }
}

/// Validate a model identifier: `[A-Za-z0-9._/-]`, 1-64 bytes.
pub fn validate_model(model: &str) -> (r: Result<(), SkulkError>)
    ensures
        as_validation(r) == validate_model_spec(model@),
        r matches Err(e) ==> e@ is Validation,
{
    let v = to_chars(model);
    if v.len() == 0 {
        return Err(SkulkError::Validation(owned("Model name cannot be empty.")));
    }
    if model.as_bytes().len() > 64 {
        return Err(SkulkError::Validation(owned("Model name must be 64 characters or fewer.")));
    }
    match first_bad_index(v.as_slice(), true) {
        Some(i) => {
            let m = invalid_char_message(v.as_slice(), i, true);
            proof {
                let ok = |c: char| is_model_char(c);
                let k = choose|k: int|
                    0 <= k < v@.len() && !ok(v@[k]) && forall|j: int| 0 <= j < k ==> ok(v@[j]);
                assert(!is_model_char(v@[i as int]));
                assert(k == i) by {
                    if k < i {
                        assert(is_model_char(v@[k]));
                    } else if k > i {
                        assert(ok(v@[i as int]));
                    }
                }
            }
            Err(SkulkError::Validation(m))
        },
        None => Ok(()),
    }
}

/// The text of `s` with each `'` replaced by `'\''`.
pub open spec fn escape_quotes(s: Seq<char>) -> Seq<char>
    decreases s.len(),
{
    if s.len() == 0 {
        Seq::empty()
    } else {
        escape_quotes(s.drop_last()) + (if s.last() == '\'' {
            seq!['\'', '\\', '\'', '\'']
        } else {
            seq![s.last()]
        })
    }
}

/// What a POSIX shell makes of the word `w`, reading it inside single
/// quotes when `quoted`: a quote opens or closes a quoted run, inside which
/// every other character (backslash included) stands for itself; outside,
/// a backslash makes the next character literal.
pub open spec fn sh_unquote(w: Seq<char>, quoted: bool) -> Seq<char>
    decreases w.len(),
{
    if w.len() == 0 {
        Seq::empty()
    } else if quoted {
        if w[0] == '\'' {
            sh_unquote(w.skip(1), false)
        } else {
            seq![w[0]] + sh_unquote(w.skip(1), true)
        }
    } else if w[0] == '\'' {
        sh_unquote(w.skip(1), true)
    } else if w[0] == '\\' && w.len() >= 2 {
        seq![w[1]] + sh_unquote(w.skip(2), false)
    } else {
        seq![w[0]] + sh_unquote(w.skip(1), false)
    }
}

/// Inside an open quote, the escaped text reads back as the text, and the
/// shell goes on reading what follows still inside the quote.
proof fn lemma_unquote_escaped(s: Seq<char>, rest: Seq<char>)
    ensures
        sh_unquote(escape_quotes(s) + rest, true) == s + sh_unquote(rest, true),
    decreases s.len(),
{
    if s.len() == 0 {
        assert(escape_quotes(s) + rest =~= rest);
        assert(s + sh_unquote(rest, true) =~= sh_unquote(rest, true));
    } else {
        let c = s.last();
        let init = s.drop_last();
        let piece = if c == '\'' { seq!['\'', '\\', '\'', '\''] } else { seq![c] };
        assert(escape_quotes(s) + rest =~= escape_quotes(init) + (piece + rest));
        lemma_unquote_escaped(init, piece + rest);
        if c == '\'' {
            let w = piece + rest;
            assert(w[0] == '\'');
            assert(w.skip(1) =~= seq!['\\', '\'', '\''] + rest);
            let w1 = w.skip(1);
            assert(w1[0] == '\\' && w1.len() >= 2 && w1[1] == '\'');
            assert(w1.skip(2) =~= seq!['\''] + rest);
            let w2 = w1.skip(2);
            assert(w2[0] == '\'');
            assert(w2.skip(1) =~= rest);
            assert(sh_unquote(w2, false) == sh_unquote(rest, true));
            assert(sh_unquote(w1, false) == seq!['\''] + sh_unquote(rest, true));
            assert(sh_unquote(w, true) == seq!['\''] + sh_unquote(rest, true));
        } else {
            let w = piece + rest;
            assert(w[0] == c);
            assert(w.skip(1) =~= rest);
        }
        assert(s =~= init + seq![c]);
        assert(s + sh_unquote(rest, true) =~= init + (seq![c] + sh_unquote(rest, true)));
    }
}

/// A text escaped with `shell_escape` and put between single quotes is read
/// back by the shell as exactly the text.
pub proof fn lemma_shell_escape_roundtrip(s: Seq<char>)
    ensures
        sh_unquote(seq!['\''] + escape_quotes(s) + seq!['\''], false) == s,
{
    let w = seq!['\''] + escape_quotes(s) + seq!['\''];
    assert(w[0] == '\'');
    assert(w.skip(1) =~= escape_quotes(s) + seq!['\'']);
    lemma_unquote_escaped(s, seq!['\'']);
    let q = seq!['\''];
    assert(q.skip(1) =~= Seq::<char>::empty());
    assert(sh_unquote(q, true) == sh_unquote(Seq::<char>::empty(), false));
    assert(s + sh_unquote(q, true) =~= s);
}

/// POSIX single-quote escape: replace `'` with `'\''` for safe SSH -> tmux
/// send-keys transit. The caller wraps the result in single quotes.
pub fn shell_escape(input: &str) -> (r: String)
    ensures
        r@ == escape_quotes(input@),
{
    let v = to_chars(input);
    let mut out = String::new();
    let mut i: usize = 0;
    assert(v@.take(0) =~= Seq::<char>::empty());
    while i < v.len()
        invariant
            i <= v.len(),
            v@ == input@,
            out@ == escape_quotes(v@.take(i as int)),
        decreases v.len() - i,
    {
        assert(v@.take(i + 1).drop_last() =~= v@.take(i as int));
        let c = v[i];
        if c == '\'' {
            let ghost before = out@;
            out.append("'\\''");
            proof {
                reveal_strlit("'\\''");
            }
            assert(out@ =~= before + seq!['\'', '\\', '\'', '\'']);
        } else {
            out.append(from_chars_range(v.as_slice(), i, i + 1).as_str());
            assert(v@.subrange(i as int, i + 1) =~= seq![c]);
        }
        i = i + 1;
    }
    assert(v@.take(v.len() as int) =~= v@);
    out
}

/// The content between the first `start` marker and the first `end` marker,
/// or nothing when either is missing or they are out of order.
pub open spec fn extract_section_spec(raw: Seq<char>, start: Seq<char>, end: Seq<char>) -> Seq<char> {
    if contains(raw, start) && contains(raw, end) {
        let s = first_match(raw, start) + start.len();
        let e = first_match(raw, end);
        if s < e {
            raw.subrange(s, e)
        } else {
            Seq::empty()
        }
    } else {
        Seq::empty()
    }
}

/// Extract a delimited section from raw SSH output.
///
/// Returns the content between `start` and `end`, or an empty string if
/// either marker is missing.
pub fn extract_section(raw: &str, start: &str, end: &str) -> (r: String)
    ensures
        r@ == extract_section_spec(raw@, start@, end@),
{
    let rv = to_chars(raw);
    let sv = to_chars(start);
    let ev = to_chars(end);
    let fs = find_chars(rv.as_slice(), sv.as_slice());
    let fe = find_chars(rv.as_slice(), ev.as_slice());
    match (fs, fe) {
        (Some(i), Some(j)) => {
            proof {
                lemma_first_match(raw@, start@, i as int);
                lemma_first_match(raw@, end@, j as int);
            }
            assert(rv@.len() == rv.len());
            assert(i + sv@.len() <= rv@.len());
            if i + sv.len() < j {
                from_chars_range(rv.as_slice(), i + sv.len(), j)
            } else {
                String::new()
            }
        },
        _ => String::new(),
    }
}


/// A typed answer means yes: `y` or `yes` in any case, around spaces.
pub open spec fn is_yes_spec(line: Seq<char>) -> bool {
    let a = lowercase(trim(line));
    a == "y"@ || a == "yes"@
}

/// Whether a typed answer to a yes/no question means yes.
pub fn is_yes(line: &str) -> (b: bool)
    ensures
        b == is_yes_spec(line@),
{
    let t = trim_str(line);
    let a = to_lowercase(t.as_str());
    let av = to_chars(a.as_str());
    let y = to_chars("y");
    let yes = to_chars("yes");
    chars_eq(av.as_slice(), y.as_slice()) || chars_eq(av.as_slice(), yes.as_slice())
}

/// The reply to a yes/no question with a default: an empty answer (after
/// trimming) takes the default, else it is yes exactly when it reads yes.
pub open spec fn reply_spec(line: Seq<char>, default_yes: bool) -> bool {
    if trim(line).len() == 0 { default_yes } else { is_yes_spec(line) }
}

/// The reply to a yes/no question whose empty answer means `default_yes`.
pub fn reply_of(line: &str, default_yes: bool) -> (b: bool)
    ensures
        b == reply_spec(line@, default_yes),
{
    let t = trim_str(line);
    if t.as_str().is_empty() {
        default_yes
    } else {
        is_yes(line)
    }
}

} // verus!
