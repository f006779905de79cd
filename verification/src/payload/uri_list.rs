//! The GTK file list: one `file://` URI per path.

use vstd::prelude::*;
use vstd::string::StringExecFns;
use crate::text::{strip_prefix, views, without_prefix};

verus! {

/// The scheme prefix of a file URI.
pub open spec fn scheme() -> Seq<char> {
    "file://"@
}

/// The URI of a path: the scheme, then the path as it is written.
pub open spec fn file_uri(path: Seq<char>) -> Seq<char> {
    scheme() + path
}

/// The URIs of `paths`, in their order.
pub open spec fn file_uri_list(paths: Seq<Seq<char>>) -> Seq<Seq<char>> {
    paths.map_values(|p: Seq<char>| file_uri(p))
}

/// The path of a file URI, `None` for any other text.
pub open spec fn uri_path(uri: Seq<char>) -> Option<Seq<char>> {
    without_prefix(uri, scheme())
}

/// The paths of a list of file URIs, `None` if one of them is none.
pub open spec fn uri_list_paths(uris: Seq<Seq<char>>) -> Option<Seq<Seq<char>>>
    decreases uris.len(),
{
    if uris.len() == 0 {
        Some(Seq::empty())
    } else {
        match (uri_path(uris[0]), uri_list_paths(uris.drop_first())) {
            (Some(first), Some(rest)) => Some(seq![first] + rest),
            _ => None,
        }
    }
}

/// Reading a URI list back gives the paths it was made from, in their
/// order, for every list of paths.
pub proof fn law_uri_list_round_trip(paths: Seq<Seq<char>>)
    ensures
        uri_list_paths(file_uri_list(paths)) == Some(paths),
    decreases paths.len(),
{
    if paths.len() > 0 {
        let uri = file_uri(paths[0]);
        assert(uri.take(scheme().len() as int) =~= scheme());
        assert(uri.skip(scheme().len() as int) =~= paths[0]);
        assert(file_uri_list(paths).drop_first() =~= file_uri_list(paths.drop_first()));
        law_uri_list_round_trip(paths.drop_first());
        assert(seq![paths[0]] + paths.drop_first() =~= paths);
    }
}

/// The URI list for `paths`.
pub fn file_uris(paths: &Vec<String>) -> (r: Vec<String>)
    ensures
        views(r@) == file_uri_list(views(paths@)),
{
    let mut uris: Vec<String> = Vec::new();
    let mut i: usize = 0;
    while i < paths.len()
        invariant
            i <= paths.len(),
            views(uris@) == file_uri_list(views(paths@).take(i as int)),
        decreases paths.len() - i,
    {
        let mut uri = "file://".to_owned();
        uri.append(paths[i].as_str());
        proof {
            let done = views(paths@).take(i as int);
            assert(views(paths@).take(i + 1) =~= done.push(paths@[i as int]@));
            assert(file_uri_list(done.push(paths@[i as int]@)) =~= file_uri_list(done).push(
                uri@,
            ));
            assert(views(uris@.push(uri)) =~= views(uris@).push(uri@));
        }
        uris.push(uri);
        i += 1;
    }
    assert(views(paths@).take(i as int) =~= views(paths@));
    uris
}

/// Reads the paths out of a URI list; `None` if an entry is no file URI.
pub fn read_uris(uris: &Vec<String>) -> (r: Option<Vec<String>>)
    ensures
        match r {
            Some(paths) => uri_list_paths(views(uris@)) == Some(views(paths@)),
            None => uri_list_paths(views(uris@)) is None,
        },
{
    let mut paths: Vec<String> = Vec::new();
    let mut i: usize = 0;
    proof {
        assert(views(uris@).skip(0) =~= views(uris@));
        if let Some(rest) = uri_list_paths(views(uris@)) {
            assert(views(paths@) + rest =~= rest);
        }
    }
    while i < uris.len()
        invariant
            i <= uris.len(),
            uri_list_paths(views(uris@)) == (match uri_list_paths(views(uris@).skip(i as int)) {
                Some(rest) => Some(views(paths@) + rest),
                None => None,
            }),
        decreases uris.len() - i,
    {
        let ghost tail = views(uris@).skip(i as int);
        assert(tail[0] == uris@[i as int]@);
        assert(tail.drop_first() =~= views(uris@).skip(i + 1));
        let path = match strip_prefix(uris[i].as_str(), "file://") {
            Some(path) => path,
            None => {
                return None;
            },
        };
        proof {
            if let Some(more) = uri_list_paths(views(uris@).skip(i + 1)) {
                assert(views(paths@.push(path)) =~= views(paths@).push(path@));
                assert(views(paths@) + (seq![path@] + more) =~= views(paths@).push(path@) + more);
            }
        }
        paths.push(path);
        i += 1;
    }
    assert(views(uris@).skip(i as int) =~= Seq::<Seq<char>>::empty());
    assert(views(paths@) + Seq::<Seq<char>>::empty() =~= views(paths@));
    Some(paths)
}

} // verus!
