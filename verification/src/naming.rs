//! Output naming: the nested path of a source file becomes one flat,
//! dot-joined artifact name.

use vstd::prelude::*;
use vstd::string::*;
use crate::text::{
    join, joined, lemma_joined_front, lemma_path_view_push, path_view, stem, with_extension,
};

verus! {

/// The components that name the artifact: those after the first `depth`,
/// the last of them with the extension `json` in place of its own.
pub open spec fn flat_parts(path: Seq<Seq<char>>, depth: nat) -> Seq<Seq<char>> {
    if depth >= path.len() {
        Seq::empty()
    } else {
        path.subrange(depth as int, path.len() - 1).push(stem(path.last()) + "."@ + "json"@)
    }
}

/// The flattened name of the file at `path`, whose first `depth` components
/// lead to the content root.
pub open spec fn flat_name(path: Seq<Seq<char>>, depth: nat) -> Seq<char> {
    joined(flat_parts(path, depth), "."@)
}

/// The place of the artifact: the flattened name inside `out_dir`.
pub open spec fn artifact_path(path: Seq<Seq<char>>, depth: nat, out_dir: Seq<char>) -> Seq<char> {
    out_dir + "/"@ + flat_name(path, depth)
}

/// Flattens a source path into an artifact name: the components after the
/// content root, joined by dots in their order, with the extension `json`.
pub fn flatten(path: &Vec<String>, depth: usize) -> (name: String)
    ensures
        name@ == flat_name(path_view(path@), depth as nat),
{
    let mut parts: Vec<String> = Vec::new();
    if depth < path.len() {
        let last: usize = path.len() - 1;
        let mut i: usize = depth;
        while i < last
            invariant
                depth <= i <= last,
                last == path.len() - 1,
                path_view(parts@) == path_view(path@).subrange(depth as int, i as int),
            decreases last - i,
        {
            proof {
                lemma_path_view_push(parts@, path@[i as int]);
            }
            parts.push(path[i].clone());
            proof {
                assert(path_view(parts@) =~= path_view(path@).subrange(depth as int, i + 1));
            }
            i += 1;
        }
        let renamed = with_extension(path[last].as_str(), "json");
        proof {
            lemma_path_view_push(parts@, renamed);
        }
        parts.push(renamed);
        proof {
            assert(path_view(path@).last() == path@[last as int]@);
            assert(path_view(parts@) =~= flat_parts(path_view(path@), depth as nat));
        }
    } else {
        proof {
            assert(path_view(parts@) =~= flat_parts(path_view(path@), depth as nat));
        }
    }
    join(&parts, ".")
}

/// Maps a source path to the place of its artifact inside `out_dir`.
pub fn path_to_record(path: &Vec<String>, depth: usize, out_dir: &str) -> (place: String)
    ensures
        place@ == artifact_path(path_view(path@), depth as nat, out_dir@),
{
    let mut place = String::from_str(out_dir);
    place.append("/");
    let name = flatten(path, depth);
    place.append(name.as_str());
    place
}

/// Flattening keeps the order of the path: the name of a file that lies
/// below a directory is the directory's name, a dot, and the name that the
/// file has below that directory.
pub proof fn law_flat_name_keeps_path_order(path: Seq<Seq<char>>, depth: nat)
    requires
        depth + 1 < path.len(),
    ensures
        flat_name(path, depth) == path[depth as int] + "."@ + flat_name(path, depth + 1),
{
    assert(flat_parts(path, depth) =~= seq![path[depth as int]] + flat_parts(path, depth + 1));
    lemma_joined_front(path[depth as int], flat_parts(path, depth + 1), "."@);
}

/// A file that lies directly under the content root keeps its name, with
/// the extension `json`; what leads to the content root does not count.
pub proof fn law_flat_name_of_a_file_under_the_root(path: Seq<Seq<char>>)
    requires
        path.len() > 0,
    ensures
        flat_name(path, (path.len() - 1) as nat) == stem(path.last()) + "."@ + "json"@,
        flat_name(path, (path.len() - 1) as nat) == flat_name(seq![path.last()], 0),
{
    assert(flat_parts(path, (path.len() - 1) as nat) =~= seq![stem(path.last()) + "."@ + "json"@]);
    assert(flat_parts(seq![path.last()], 0) =~= seq![stem(path.last()) + "."@ + "json"@]);
}

} // verus!
