//! Joining strings with a separator, and the text of an absolute path.
use vstd::prelude::*;

verus! {

/// The characters of each string in `v`.
pub open spec fn names(v: Seq<String>) -> Seq<Seq<char>> {
    v.map_values(|s: String| s@)
}

/// The words of `ws` with `sep` between each two neighbours.
pub open spec fn joined_with(ws: Seq<Seq<char>>, sep: Seq<char>) -> Seq<char>
    decreases ws.len(),
{
    if ws.len() == 0 {
        Seq::empty()
    } else if ws.len() == 1 {
        ws[0]
    } else {
        joined_with(ws.drop_last(), sep) + sep + ws.last()
    }
}

/// The text of the absolute path whose components below the root are `cs`.
pub open spec fn path_text(cs: Seq<Seq<char>>) -> Seq<char> {
    "/"@ + joined_with(cs, "/"@)
}

/// Joins the strings of `ws` from index `from` on, with `sep` between them.
pub fn join_from(ws: &Vec<String>, from: usize, sep: &str) -> (r: String)
    requires
        from <= ws@.len(),
    ensures
        r@ == joined_with(names(ws@.skip(from as int)), sep@),
{
    let mut r = String::new();
    let mut i: usize = from;
    while i < ws.len()
        invariant
            from <= i <= ws@.len(),
            r@ == joined_with(names(ws@.subrange(from as int, i as int)), sep@),
        decreases ws@.len() - i,
    {
        let ghost done = names(ws@.subrange(from as int, i as int));
        let ghost next = names(ws@.subrange(from as int, i + 1));
        assert(next.drop_last() =~= done);
        if i > from {
            r.append(sep);
        } else {
            assert(done.len() == 0);
        }
        r.append(ws[i].as_str());
        i = i + 1;
        assert(r@ =~= joined_with(next, sep@));
    }
    assert(ws@.subrange(from as int, ws@.len() as int) =~= ws@.skip(from as int));
    r
}

/// The text of the absolute path whose components below the root are `cs`.
pub fn path_string(cs: &Vec<String>) -> (r: String)
    ensures
        r@ == path_text(names(cs@)),
{
    let mut r = String::from_str("/");
    let rest = join_from(cs, 0, "/");
    assert(cs@.skip(0) =~= cs@);
    r.append(rest.as_str());
    r
}

} // verus!
