use crate::data::types::UIQueueItem;
use crate::media::metadata::Metadata;
use vstd::prelude::*;
use vstd::std_specs::iter::IteratorSpec;
use vstd::string::StrSliceExecFns;

verus! {

/// Where the last component of `path` starts: behind the last
/// `separator`, or at the front where there is none.
pub open spec fn component_start(path: Seq<char>, separator: char) -> int
    decreases path.len(),
{
    if path.len() == 0 {
        0
    } else if path.last() == separator {
        path.len() as int
    } else {
        component_start(path.drop_last(), separator)
    }
}

/// The last component of `path`: what follows its last `separator`, or
/// all of it where there is none.
pub open spec fn last_component(path: Seq<char>, separator: char) -> Seq<char> {
    path.skip(component_start(path, separator))
}

/// The last component of a path holds no separator, and nothing but a
/// separator stands before it.
pub proof fn lemma_last_component(path: Seq<char>, separator: char)
    ensures
        0 <= component_start(path, separator) <= path.len(),
        !last_component(path, separator).contains(separator),
        component_start(path, separator) > 0 ==> path[component_start(path, separator) - 1]
            == separator,
        !path.contains(separator) ==> last_component(path, separator) == path,
    decreases path.len(),
{
    if path.len() > 0 && path.last() != separator {
        let front = path.drop_last();
        lemma_last_component(front, separator);
        let start = component_start(front, separator);
        assert(path.skip(start) =~= front.skip(start).push(path.last()));
    }
}

/// `std::path::MAIN_SEPARATOR`: the character that separates the
/// components of a path on this platform. It is `/` or `\`; which of the
/// two depends on the platform.
#[verifier::external_body]
fn main_separator() -> (separator: char)
    ensures
        separator == '/' || separator == '\\',
{
    std::path::MAIN_SEPARATOR
}

/// The last component of `path`, with `separator` between components.
pub fn last_component_of(path: &str, separator: char) -> (component: String)
    ensures
        component@ == last_component(path@, separator),
{
    broadcast use {vstd::string::axiom_spec_iter, vstd::string::next_postcondition};

    let length = path.unicode_len();
    let mut chars = path.chars();
    let mut start: usize = 0;
    let mut index: usize = 0;
    loop
        invariant
            length == path@.len(),
            index <= length,
            IteratorSpec::remaining(&chars) == path@.skip(index as int),
            start == component_start(path@.take(index as int), separator),
            start <= index,
        ensures
            index == length,
        decreases length - index,
    {
        match chars.next() {
            None => {
                break ;
            },
            Some(c) => {
                proof {
                    assert(path@.take(index + 1).drop_last() =~= path@.take(index as int));
                }
                index += 1;
                if c == separator {
                    start = index;
                }
            },
        }
    }
    path.substring_char(start, length).to_string()
}

/// The item of a track of which only the path is known, with `separator`
/// between the components of paths: it is named after the last component
/// of its path.
pub fn generic_queue_item<I>(path: String, separator: char) -> (item: UIQueueItem<I>)
    ensures
        item.file_path@ == path@,
        item.album_art is None,
        item.metadata.artist is None,
        item.metadata.album is None,
        item.metadata.name matches Some(name) && name@ == last_component(path@, separator),
{
    let name = last_component_of(path.as_str(), separator);
    UIQueueItem {
        metadata: Metadata { name: Some(name), artist: None, album: None },
        file_path: path,
        album_art: None,
    }
}

/// The item of a track of which only the path is known: it is named
/// after the last component of its path, as the platform separates them,
/// with `/` or with `\`. A path that holds neither is its own name.
pub fn create_generic_queue_item<I>(path: String) -> (item: UIQueueItem<I>)
    ensures
        item.file_path@ == path@,
        item.album_art is None,
        item.metadata.artist is None,
        item.metadata.album is None,
        item.metadata.name matches Some(name) && (name@ == last_component(path@, '/') || name@
            == last_component(path@, '\\')),
        !path@.contains('/') && !path@.contains('\\') ==> (item.metadata.name matches Some(name)
            && name@ == path@),
{
    proof {
        lemma_last_component(path@, '/');
        lemma_last_component(path@, '\\');
    }
    generic_queue_item(path, main_separator())
}

} // verus!
