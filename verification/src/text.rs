//! Plain text helpers: character-exact string comparison and the
//! file-name-as-title rule used when a chapter is backed by a file.

use vstd::prelude::*;

verus! {

/// Compares two string slices character by character.
pub fn str_eq(a: &str, b: &str) -> (r: bool)
    ensures
        r == (a@ == b@),
{
    let la = a.unicode_len();
    let lb = b.unicode_len();
    if la != lb {
        return false;
    }
    let mut i: usize = 0;
    while i < la
        invariant
            la == a@.len(),
            lb == b@.len(),
            la == lb,
            i <= la,
            forall|k: int| 0 <= k < i ==> a@[k] == b@[k],
        decreases la - i,
    {
        if a.get_char(i) != b.get_char(i) {
            return false;
        }
        i = i + 1;
    }
    proof {
        assert(a@ =~= b@);
    }
    true
}

/// The text after the last `/` of `s`: the whole of `s` when no `/` occurs,
/// empty when `s` is empty or ends in `/`.
pub open spec fn last_component(s: Seq<char>) -> Seq<char>
    decreases s.len(),
{
    if s.len() == 0 {
        Seq::empty()
    } else if s.last() == '/' {
        Seq::empty()
    } else {
        last_component(s.drop_last()).push(s.last())
    }
}

/// When the suffix of `s` from `from` on holds no `/`, and a `/` stands just
/// before it (or it is the whole of `s`), that suffix is `last_component(s)`.
proof fn lemma_last_component_suffix(s: Seq<char>, from: int)
    requires
        0 <= from <= s.len(),
        forall|k: int| from <= k < s.len() ==> s[k] != '/',
        from > 0 ==> s[from - 1] == '/',
    ensures
        last_component(s) == s.subrange(from, s.len() as int),
    decreases s.len(),
{
    if s.len() == 0 {
        assert(last_component(s) =~= s.subrange(from, s.len() as int));
    } else if from == s.len() {
        assert(s.last() == '/');
        assert(last_component(s) =~= s.subrange(from, s.len() as int));
    } else {
        assert(s.last() != '/');
        lemma_last_component_suffix(s.drop_last(), from);
        assert(last_component(s) =~= s.subrange(from, s.len() as int));
    }
}

/// Resolves a display title for a file reference: the file name, that is the
/// text after the last `/` of the path. Total: an empty path, or one that
/// ends in `/`, yields an empty title.
pub fn title_from_markdown(path: &str) -> (r: String)
    ensures
        r@ == last_component(path@),
{
    let len = path.unicode_len();
    let mut from: usize = len;
    loop
        invariant
            len == path@.len(),
            from <= len,
            forall|k: int| from <= k < len ==> path@[k] != '/',
        ensures
            from <= len,
            forall|k: int| from <= k < len ==> path@[k] != '/',
            from > 0 ==> path@[from - 1] == '/',
        decreases from,
    {
        if from == 0 {
            break;
        }
        if path.get_char(from - 1) == '/' {
            break;
        }
        from = from - 1;
    }
    proof {
        lemma_last_component_suffix(path@, from as int);
    }
    let tail = path.substring_char(from, len);
    String::from_str(tail)
}

} // verus!
