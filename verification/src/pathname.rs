//! The extension of a path, as the standard library's path rules give it.

use crate::text::is_ascii_text;
use vstd::prelude::*;

verus! {

/// The extension of a path as the platform's path rules give it: the part
/// of the final component after its last dot, if there is one.
pub uninterp spec fn path_extension(path: Seq<char>) -> Option<Seq<char>>;

/// The place of the last `c` in `text`, or -1 where it has none.
pub open spec fn last_position(text: Seq<char>, c: char) -> int
    decreases text.len(),
{
    if text.len() == 0 {
        -1
    } else if text.last() == c {
        text.len() - 1
    } else {
        last_position(text.drop_last(), c)
    }
}

/// Whether `path` reads the same on every platform: it holds no backslash
/// and no colon, and does not begin with two slashes, so that the slash is
/// its only separator and nothing in it is a drive or a server.
pub open spec fn is_portable(path: Seq<char>) -> bool {
    &&& forall|i: int| 0 <= i < path.len() ==> #[trigger] path[i] != '\\' && path[i] != ':'
    &&& !(path.len() >= 2 && path[0] == '/' && path[1] == '/')
}

/// What follows the last slash of `path`; all of it where it has none.
pub open spec fn final_name(path: Seq<char>) -> Seq<char> {
    path.subrange(last_position(path, '/') + 1, path.len() as int)
}

/// Whether `path` is portable and ends in the name of its final component:
/// it has no slash at all, or what follows its last slash is neither empty
/// nor a single dot.
pub open spec fn ends_in_name(path: Seq<char>) -> bool {
    &&& is_portable(path)
    &&& last_position(path, '/') >= 0 ==> final_name(path).len() > 0 && final_name(path) != seq!['.']
}

/// The extension of a file name: what follows its last dot. A name without
/// a dot has none, nor has one whose only dot is its first character, nor
/// the name `..`.
pub open spec fn name_extension(name: Seq<char>) -> Option<Seq<char>> {
    let dot = last_position(name, '.');
    if dot <= 0 || name == seq!['.', '.'] {
        None
    } else {
        Some(name.subrange(dot + 1, name.len() as int))
    }
}

/// The characters of an optional string slice.
pub open spec fn text_of(text: Option<&str>) -> Option<Seq<char>> {
    match text {
        Some(t) => Some(t@),
        None => None,
    }
}

/// `std::path::Path::extension` on the path `path`, as text. The result is
/// a function of the path's characters. Where the path is portable and
/// ends in the name of its final component, it is the extension of that
/// name by the documented rules.
#[verifier::external_body]
pub(crate) fn extension_of(path: &str) -> (extension: Option<&str>)
    ensures
        text_of(extension) == path_extension(path@),
        ends_in_name(path@) ==> text_of(extension) == name_extension(final_name(path@)),
{
    std::path::Path::new(path).extension().and_then(|e| e.to_str())
}

/// The last `c` of a text lies within it, is `c`, and no `c` follows it.
pub proof fn lemma_last_position(text: Seq<char>, c: char)
    ensures
        -1 <= last_position(text, c) < text.len(),
        last_position(text, c) >= 0 ==> text[last_position(text, c)] == c,
        forall|i: int| last_position(text, c) < i < text.len() ==> text[i] != c,
    decreases text.len(),
{
    if text.len() > 0 && text.last() != c {
        let stem = text.drop_last();
        lemma_last_position(stem, c);
        assert forall|i: int| last_position(text, c) < i < text.len() implies text[i] != c by {
            if i < stem.len() {
                assert(stem[i] == text[i]);
            }
        }
    }
}

/// Characters other than `c`, put behind a text, leave its last `c` where
/// it is.
pub proof fn lemma_last_position_before_suffix(text: Seq<char>, suffix: Seq<char>, c: char)
    requires
        forall|i: int| 0 <= i < suffix.len() ==> suffix[i] != c,
    ensures
        last_position(text + suffix, c) == last_position(text, c),
    decreases suffix.len(),
{
    if suffix.len() == 0 {
        assert(text + suffix =~= text);
    } else {
        let whole = text + suffix;
        assert(whole.last() == suffix[suffix.len() - 1]);
        assert(whole.drop_last() =~= text + suffix.drop_last());
        lemma_last_position_before_suffix(text, suffix.drop_last(), c);
    }
}

/// A path without a slash is its own final name.
pub proof fn lemma_final_name_of_single_name(path: Seq<char>)
    requires
        forall|i: int| 0 <= i < path.len() ==> path[i] != '/',
    ensures
        last_position(path, '/') == -1,
        final_name(path) == path,
{
    lemma_last_position_before_suffix(Seq::empty(), path, '/');
    assert(Seq::<char>::empty() + path =~= path);
    assert(path.subrange(0, path.len() as int) =~= path);
}

/// The final name of a path of ASCII characters, and the extension of a
/// name of ASCII characters, are of ASCII characters.
pub proof fn lemma_extension_of_ascii_path(path: Seq<char>)
    requires
        is_ascii_text(path),
    ensures
        is_ascii_text(final_name(path)),
        name_extension(final_name(path)) matches Some(e) ==> is_ascii_text(e),
{
    lemma_last_position(path, '/');
    let name = final_name(path);
    let slash = last_position(path, '/');
    assert forall|i: int| 0 <= i < name.len() implies (#[trigger] name[i] as u32) < 128 by {
        assert(name[i] == path[slash + 1 + i]);
    }
    lemma_last_position(name, '.');
    if let Some(e) = name_extension(name) {
        let dot = last_position(name, '.');
        assert forall|i: int| 0 <= i < e.len() implies (#[trigger] e[i] as u32) < 128 by {
            assert(e[i] == name[dot + 1 + i]);
        }
    }
}

} // verus!
