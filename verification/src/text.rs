//! Small operations on names and paths, stated over sequences of characters.

use vstd::prelude::*;
use vstd::string::*;

verus! {

/// The components of a path as contracts speak of them.
pub open spec fn path_view(path: Seq<String>) -> Seq<Seq<char>> {
    Seq::new(path.len(), |i: int| path[i]@)
}

/// A path with one more component views as the viewed path with that
/// component's characters added.
pub proof fn lemma_path_view_push(path: Seq<String>, last: String)
    ensures
        path_view(path.push(last)) == path_view(path).push(last@),
{
    assert(path_view(path.push(last)) =~= path_view(path).push(last@));
}

/// The parts in order, with `sep` between each two neighbours.
pub open spec fn joined(parts: Seq<Seq<char>>, sep: Seq<char>) -> Seq<char>
    decreases parts.len(),
{
    if parts.len() == 0 {
        Seq::empty()
    } else if parts.len() == 1 {
        parts[0]
    } else {
        joined(parts.drop_last(), sep) + sep + parts.last()
    }
}

/// Joining keeps the order of the parts: what is joined after a first part
/// is that part, the separator, and the rest joined.
pub proof fn lemma_joined_front(first: Seq<char>, rest: Seq<Seq<char>>, sep: Seq<char>)
    requires
        rest.len() > 0,
    ensures
        joined(seq![first] + rest, sep) == first + sep + joined(rest, sep),
    decreases rest.len(),
{
    let all = seq![first] + rest;
    assert(all.last() == rest.last());
    if rest.len() == 1 {
        assert(all.drop_last() =~= seq![first]);
        assert(joined(all.drop_last(), sep) == first);
    } else {
        assert(all.drop_last() =~= seq![first] + rest.drop_last());
        lemma_joined_front(first, rest.drop_last(), sep);
        assert(first + sep + joined(rest.drop_last(), sep) + sep + rest.last() =~= first + sep + (
        joined(rest.drop_last(), sep) + sep + rest.last()));
    }
}

/// The greatest index in `1..=k` at which `name` holds a dot, or 0 where
/// there is none. A dot that opens the name separates nothing.
pub open spec fn dot_before(name: Seq<char>, k: int) -> int
    decreases k,
{
    if k <= 0 || k >= name.len() {
        0
    } else if name[k] == '.' {
        k
    } else {
        dot_before(name, k - 1)
    }
}

/// The index of the dot that separates the extension, or 0 where the name
/// has no extension.
pub open spec fn extension_dot(name: Seq<char>) -> int {
    dot_before(name, name.len() - 1)
}

/// The name without its extension and without the dot before it.
pub open spec fn stem(name: Seq<char>) -> Seq<char> {
    if extension_dot(name) == 0 {
        name
    } else {
        name.take(extension_dot(name))
    }
}

/// What follows the last dot of the name; empty where there is no extension.
pub open spec fn extension(name: Seq<char>) -> Seq<char> {
    if extension_dot(name) == 0 {
        Seq::empty()
    } else {
        name.skip(extension_dot(name) + 1)
    }
}

/// Joins the parts with `sep` between them.
pub fn join(parts: &Vec<String>, sep: &str) -> (out: String)
    ensures
        out@ == joined(path_view(parts@), sep@),
{
    let mut out = String::new();
    let mut i: usize = 0;
    while i < parts.len()
        invariant
            i <= parts.len(),
            out@ == joined(path_view(parts@).take(i as int), sep@),
        decreases parts.len() - i,
    {
        proof {
            let before = path_view(parts@).take(i as int);
            let after = path_view(parts@).take(i + 1);
            assert(after.drop_last() =~= before);
            assert(after.last() == parts@[i as int]@);
            if i == 0 {
                assert(out@ + parts@[0]@ =~= parts@[0]@);
            }
        }
        if i > 0 {
            out.append(sep);
        }
        out.append(parts[i].as_str());
        i += 1;
    }
    proof {
        assert(path_view(parts@).take(parts@.len() as int) =~= path_view(parts@));
    }
    out
}

/// Finds the dot that separates the extension of `name`.
pub fn find_extension_dot(name: &str) -> (dot: usize)
    ensures
        dot as int == extension_dot(name@),
        dot < name@.len() || dot == 0,
{
    let n: usize = name.unicode_len();
    if n == 0 {
        return 0;
    }
    let mut k: usize = n - 1;
    while k > 0
        invariant
            k < n,
            n == name@.len(),
            dot_before(name@, k as int) == extension_dot(name@),
        decreases k,
    {
        if name.get_char(k) == '.' {
            return k;
        }
        k -= 1;
    }
    0
}

/// The extension of `name`, without the dot.
pub fn extension_of(name: &str) -> (ext: String)
    ensures
        ext@ == extension(name@),
{
    let dot: usize = find_extension_dot(name);
    if dot == 0 {
        String::new()
    } else {
        let n: usize = name.unicode_len();
        proof {
            assert(name@.subrange(dot + 1, n as int) =~= name@.skip(dot + 1));
        }
        String::from_str(name.substring_char(dot + 1, n))
    }
}

/// The name with its extension replaced by `ext`, or with `ext` added where
/// it had none.
pub fn with_extension(name: &str, ext: &str) -> (out: String)
    ensures
        out@ == stem(name@) + "."@ + ext@,
{
    let dot: usize = find_extension_dot(name);
    let mut out = if dot == 0 {
        String::from_str(name)
    } else {
        proof {
            assert(name@.subrange(0, dot as int) =~= name@.take(dot as int));
        }
        String::from_str(name.substring_char(0, dot))
    };
    out.append(".");
    out.append(ext);
    out
}

/// The character of a decimal digit.
pub open spec fn digit(d: nat) -> char {
    if d == 0 {
        '0'
    } else if d == 1 {
        '1'
    } else if d == 2 {
        '2'
    } else if d == 3 {
        '3'
    } else if d == 4 {
        '4'
    } else if d == 5 {
        '5'
    } else if d == 6 {
        '6'
    } else if d == 7 {
        '7'
    } else if d == 8 {
        '8'
    } else {
        '9'
    }
}

/// The decimal numeral of `n`, without leading zeros.
pub open spec fn decimal(n: nat) -> Seq<char>
    decreases n,
{
    if n < 10 {
        seq![digit(n)]
    } else {
        decimal(n / 10).push(digit(n % 10))
    }
}

fn digit_text(d: usize) -> (out: &'static str)
    requires
        d < 10,
    ensures
        out@ == seq![digit(d as nat)],
{
    let out = if d == 0 {
        "0"
    } else if d == 1 {
        "1"
    } else if d == 2 {
        "2"
    } else if d == 3 {
        "3"
    } else if d == 4 {
        "4"
    } else if d == 5 {
        "5"
    } else if d == 6 {
        "6"
    } else if d == 7 {
        "7"
    } else if d == 8 {
        "8"
    } else {
        "9"
    };
    proof {
        reveal_strlit("0");
        reveal_strlit("1");
        reveal_strlit("2");
        reveal_strlit("3");
        reveal_strlit("4");
        reveal_strlit("5");
        reveal_strlit("6");
        reveal_strlit("7");
        reveal_strlit("8");
        reveal_strlit("9");
        assert(out@ =~= seq![digit(d as nat)]);
    }
    out
}

/// Writes `n` as a decimal numeral.
pub fn decimal_text(n: usize) -> (out: String)
    ensures
        out@ == decimal(n as nat),
    decreases n,
{
    if n < 10 {
        String::from_str(digit_text(n))
    } else {
        let mut out = decimal_text(n / 10);
        out.append(digit_text(n % 10));
        proof {
            assert(out@ =~= decimal(n as nat));
        }
        out
    }
}

} // verus!
