//! The two template grammars that drive resource resolution.
//!
//! A port template is one to three decimal digits followed by the literal
//! placeholder `xx`.  A directory-name template is any string that ends with
//! `xx` and whose characters, except possibly the one just before that
//! ending, are ASCII word characters or hyphens.

use vstd::prelude::*;

verus! {

use vstd::string::StrSliceExecFns;

/// An ASCII decimal digit.
pub open spec fn is_digit(c: char) -> bool {
    '0' <= c && c <= '9'
}

/// An ASCII word character or a hyphen.
pub open spec fn is_word_char(c: char) -> bool {
    ('a' <= c && c <= 'z') || ('A' <= c && c <= 'Z') || is_digit(c) || c == '_' || c == '-'
}

/// A valid port template: one to three digits, then the placeholder `xx`.
pub open spec fn valid_port_template(s: Seq<char>) -> bool {
    &&& 3 <= s.len() <= 5
    &&& s[s.len() - 2] == 'x'
    &&& s[s.len() - 1] == 'x'
    &&& forall|i: int| 0 <= i < s.len() - 2 ==> is_digit(s[i])
}

/// A valid directory-name template: it ends with the placeholder `xx`, and
/// every character before that ending, except possibly the last one, is a
/// word character or a hyphen.
pub open spec fn valid_dir_template(s: Seq<char>) -> bool {
    &&& s.len() >= 2
    &&& s[s.len() - 2] == 'x'
    &&& s[s.len() - 1] == 'x'
    &&& forall|i: int| 0 <= i < s.len() - 3 ==> is_word_char(s[i])
}

/// Decides whether `s` is a valid port template.
pub fn is_valid_port_template(s: &str) -> (b: bool)
    ensures
        b == valid_port_template(s@),
{
    let len = s.unicode_len();
    if len < 3 || len > 5 {
        return false;
    }
    if s.get_char(len - 2) != 'x' || s.get_char(len - 1) != 'x' {
        return false;
    }
    let mut i: usize = 0;
    while i < len - 2
        invariant
            3 <= len <= 5,
            i <= len - 2,
            len == s@.len(),
            forall|j: int| 0 <= j < i ==> is_digit(s@[j]),
        decreases len - 2 - i,
    {
        let c = s.get_char(i);
        if !('0' <= c && c <= '9') {
            return false;
        }
        i = i + 1;
    }
    true
}

/// Decides whether `s` is a valid directory-name template.
pub fn is_valid_dir_template(s: &str) -> (b: bool)
    ensures
        b == valid_dir_template(s@),
{
    let len = s.unicode_len();
    if len < 2 {
        return false;
    }
    if s.get_char(len - 2) != 'x' || s.get_char(len - 1) != 'x' {
        return false;
    }
    if len < 3 {
        return true;
    }
    let mut i: usize = 0;
    while i < len - 3
        invariant
            3 <= len,
            i <= len - 3,
            len == s@.len(),
            forall|j: int| 0 <= j < i ==> is_word_char(s@[j]),
        decreases len - 3 - i,
    {
        let c = s.get_char(i);
        let word = ('a' <= c && c <= 'z') || ('A' <= c && c <= 'Z') || ('0' <= c && c <= '9')
            || c == '_' || c == '-';
        if !word {
            return false;
        }
        i = i + 1;
    }
    true
}

/// A valid port template never holds the placeholder `xx` anywhere but at its
/// end: digits are not `x`.
pub proof fn lemma_port_template_prefix_free(s: Seq<char>)
    requires
        valid_port_template(s),
    ensures
        forall|i: int| 0 <= i < s.len() - 2 ==> s[i] != 'x',
{
    assert forall|i: int| 0 <= i < s.len() - 2 implies s[i] != 'x' by {
        assert(is_digit(s[i]));
    }
}

} // verus!
