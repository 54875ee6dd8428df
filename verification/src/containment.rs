//! Deciding whether a relative path stays inside the folder it is placed under.

use vstd::prelude::*;
use vstd::string::StrSliceExecFns;

verus! {

/// How deep below the starting folder a walk stands after one more path
/// component: empty components and `.` stay, `..` climbs one level and cannot
/// climb above the start, any other name descends one level.
pub open spec fn after_component(depth: int, component: Seq<char>) -> Option<int> {
    if component.len() == 0 || component == seq!['.'] {
        Some(depth)
    } else if component == seq!['.', '.'] {
        if depth > 0 {
            Some(depth - 1)
        } else {
            None
        }
    } else {
        Some(depth + 1)
    }
}

/// Where a walk along `path` stands after its last character: the depth
/// reached by the components already closed by a `/`, and the characters of
/// the component still open. `None` once the walk has climbed above the start.
pub open spec fn walk(path: Seq<char>) -> Option<(int, Seq<char>)>
    decreases path.len(),
{
    if path.len() == 0 {
        Some((0, Seq::empty()))
    } else {
        match walk(path.drop_last()) {
            Some((depth, open)) => if path.last() == '/' {
                match after_component(depth, open) {
                    Some(deeper) => Some((deeper, Seq::empty())),
                    None => None,
                }
            } else {
                Some((depth, open.push(path.last())))
            },
            None => None,
        }
    }
}

/// The relative path `path` never leaves the folder it starts in: it does not
/// begin at the root, and no prefix of it climbs above the start.
pub open spec fn stays_inside(path: Seq<char>) -> bool {
    &&& !(path.len() > 0 && path[0] == '/')
    &&& match walk(path) {
        Some((depth, open)) => after_component(depth, open) is Some,
        None => false,
    }
}

/// The path under which an archive entry is unpacked, relative to the folder:
/// its enclosed path, provided there is one and it stays inside the folder.
/// An entry without such a path is skipped.
pub open spec fn safe_path(enclosed: Option<Seq<char>>) -> Option<Seq<char>> {
    match enclosed {
        Some(relative) => if stays_inside(relative) {
            Some(relative)
        } else {
            None
        },
        None => None,
    }
}

/// What is known of the component still open.
#[derive(Clone, Copy, Debug, PartialEq, Eq)]
enum Open {
    Empty,
    Dot,
    DotDot,
    Name,
}

impl Open {
    spec fn describes(self, open: Seq<char>) -> bool {
        match self {
            Open::Empty => open.len() == 0,
            Open::Dot => open == seq!['.'],
            Open::DotDot => open == seq!['.', '.'],
            Open::Name => open.len() > 0 && open != seq!['.'] && open != seq!['.', '.'],
        }
    }
}

/// The characters of the open component of a walk never outnumber the
/// characters walked, and the depth never exceeds them either.
proof fn lemma_walk_bounds(path: Seq<char>)
    ensures
        walk(path) matches Some((depth, open)) ==> 0 <= depth && depth + open.len() <= path.len(),
    decreases path.len(),
{
    if path.len() > 0 {
        lemma_walk_bounds(path.drop_last());
    }
}

/// Once a walk has climbed above the start, no continuation brings it back.
proof fn lemma_walk_stays_failed(path: Seq<char>, k: int)
    requires
        0 <= k <= path.len(),
        walk(path.take(k)) is None,
    ensures
        walk(path) is None,
    decreases path.len() - k,
{
    if k < path.len() {
        assert(path.take(k + 1).drop_last() == path.take(k));
        lemma_walk_stays_failed(path, k + 1);
    } else {
        assert(path.take(k) == path);
    }
}

/// Whether the relative path `path` stays inside the folder it is placed
/// under.
pub fn is_inside(path: &str) -> (inside: bool)
    ensures
        inside == stays_inside(path@),
{
    let total = path.unicode_len();
    let mut depth: usize = 0;
    let mut open = Open::Empty;
    let mut first = true;
    let ghost mut open_chars: Seq<char> = Seq::empty();
    for c in it: path.chars()
        invariant
            it.seq() == path@,
            total == path@.len(),
            first == (it.index() == 0),
            walk(path@.take(it.index() as int)) == Some((depth as int, open_chars)),
            open.describes(open_chars),
            !(path@.len() > 0 && it.index() > 0 && path@[0] == '/'),
    {
        let ghost k = it.index() as int;
        proof {
            assert(path@.take(k + 1).drop_last() == path@.take(k));
            lemma_walk_bounds(path@.take(k));
        }
        if c == '/' {
            if first {
                return false;
            }
            match open {
                Open::Empty => {},
                Open::Dot => {},
                Open::DotDot => {
                    if depth == 0 {
                        proof {
                            lemma_walk_stays_failed(path@, k + 1);
                        }
                        return false;
                    }
                    depth -= 1;
                },
                Open::Name => {
                    depth += 1;
                },
            }
            open = Open::Empty;
            proof {
                open_chars = Seq::empty();
            }
        } else {
            open = match open {
                Open::Empty => if c == '.' {
                    Open::Dot
                } else {
                    Open::Name
                },
                Open::Dot => if c == '.' {
                    Open::DotDot
                } else {
                    Open::Name
                },
                Open::DotDot => Open::Name,
                Open::Name => Open::Name,
            };
            proof {
                let longer = open_chars.push(c);
                assert(longer.drop_last() == open_chars);
                assert(longer.last() == c);
                assert(seq!['.'].len() == 1 && seq!['.', '.'].len() == 2);
                assert(seq!['.'][0] == '.' && seq!['.', '.'][0] == '.' && seq!['.', '.'][1] == '.');
                assert(seq!['.', '.'].drop_last() =~= seq!['.']);
                if open_chars.len() == 0 && c == '.' {
                    assert(longer =~= seq!['.']);
                }
                if open_chars == seq!['.'] && c == '.' {
                    assert(longer =~= seq!['.', '.']);
                }
                open_chars = longer;
            }
        }
        first = false;
    }
    proof {
        assert(path@.take(path@.len() as int) == path@);
    }
    match open {
        Open::DotDot => depth > 0,
        _ => true,
    }
}

proof fn lemma_leading_parent_walk(rest: Seq<char>)
    ensures
        walk(seq!['.', '.', '/'] + rest) is None,
    decreases rest.len(),
{
    let head = seq!['.', '.', '/'];
    if rest.len() == 0 {
        let none = Seq::<char>::empty();
        let one = seq!['.'];
        let two = seq!['.', '.'];
        assert(head + rest == head);
        assert(head.drop_last() == two && head.last() == '/');
        assert(two.drop_last() == one && two.last() == '.');
        assert(one.drop_last() == none && one.last() == '.');
        assert(walk(none) == Some((0int, none)));
        assert(none.push('.') == one);
        assert(walk(one) == Some((0int, one)));
        assert(one.push('.') == two);
        assert(walk(two) == Some((0int, two)));
        assert(after_component(0, two) is None);
        assert(walk(head) is None);
    } else {
        lemma_leading_parent_walk(rest.drop_last());
        assert((head + rest).drop_last() == head + rest.drop_last());
    }
}

/// A path that climbs out at its very first step is never inside, whatever
/// follows.
pub proof fn lemma_leading_parent_is_outside(rest: Seq<char>)
    ensures
        !stays_inside(seq!['.', '.', '/'] + rest),
{
    lemma_leading_parent_walk(rest);
}

/// Whether an archive entry with this enclosed path is unpacked.
pub fn has_safe_path(enclosed: &Option<String>) -> (safe: bool)
    ensures
        safe == match *enclosed {
            Some(relative) => stays_inside(relative@),
            None => false,
        },
{
    match enclosed {
        Some(relative) => is_inside(relative.as_str()),
        None => false,
    }
}

} // verus!
