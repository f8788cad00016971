//! Which windows float, and which are managed at all.
use vstd::prelude::*;
use crate::data_types::WinId;
use crate::text::chars_of;

verus! {

/// The separator between the parts of a class property.
pub const CLASS_SEPARATOR: char = '\0';

/// Whether `text` from `from` up to `to` is one of the parts that `sep`
/// divides it into: it begins at the start of the text or right after a
/// separator, ends at the end of the text or right before a separator, and
/// holds none. A text without separator is its own single part, and a
/// separator at the very end is followed by an empty part.
pub open spec fn is_piece(text: Seq<char>, sep: char, from: int, to: int) -> bool {
    &&& 0 <= from <= to <= text.len()
    &&& (from == 0 || text[from - 1] == sep)
    &&& (to == text.len() || text[to] == sep)
    &&& forall|k: int| from <= k < to ==> text[k] != sep
}

/// Whether one of the parts of `text` is among `wanted`.
pub open spec fn has_piece_in(text: Seq<char>, sep: char, wanted: Seq<Seq<char>>) -> bool {
    exists|from: int, to: int|
        is_piece(text, sep, from, to) && wanted.contains(#[trigger] text.subrange(from, to))
}

/// Whether one of `types` is among `wanted`.
pub open spec fn any_type_in(types: Seq<u32>, wanted: Seq<u32>) -> bool {
    exists|i: int| 0 <= i < types.len() && wanted.contains(#[trigger] types[i])
}

/// Whether the reply to a read of a window's types shows one of `wanted`.
/// A read that failed shows none.
pub open spec fn reply_has_type_in(reply: Option<Seq<u32>>, wanted: Seq<u32>) -> bool {
    reply matches Some(types) && any_type_in(types, wanted)
}

/// The rule that decides whether a window floats. `class` is the window's
/// class property and `types` its window types, each `None` where it could
/// not be read. The window floats if a part of its class is one of the
/// `floating` class names; failing that, if one of its types is among
/// `auto_float`; otherwise it is tiled.
pub open spec fn should_float(
    class: Option<Seq<char>>,
    types: Option<Seq<u32>>,
    floating: Seq<Seq<char>>,
    auto_float: Seq<u32>,
) -> bool {
    ||| class matches Some(c) && has_piece_in(c, CLASS_SEPARATOR, floating)
    ||| reply_has_type_in(types, auto_float)
}

/// The windows to manage among `windows`, each given with the reply to the
/// read of its types: those that show none of the `unmanaged` types, in the
/// order in which they were given.
pub open spec fn manageable(
    windows: Seq<(WinId, Option<Seq<u32>>)>,
    unmanaged: Seq<u32>,
) -> Seq<WinId>
    decreases windows.len(),
{
    if windows.len() == 0 {
        seq![]
    } else {
        let before = manageable(windows.drop_last(), unmanaged);
        if reply_has_type_in(windows.last().1, unmanaged) {
            before
        } else {
            before.push(windows.last().0)
        }
    }
}

/// Whether `text` from `from` up to `to` equals one of `wanted`, whose
/// entries are the strings `names`.
fn part_is_wanted(
    text: &Vec<char>,
    from: usize,
    to: usize,
    wanted: &Vec<Vec<char>>,
    Ghost(names): Ghost<Seq<Seq<char>>>,
) -> (found: bool)
    requires
        from <= to <= text@.len(),
        wanted@.len() == names.len(),
        forall|k: int| 0 <= k < names.len() ==> (#[trigger] wanted@[k])@ == names[k],
    ensures
        found == names.contains(text@.subrange(from as int, to as int)),
{
    let ghost part = text@.subrange(from as int, to as int);
    let mut j: usize = 0;
    while j < wanted.len()
        invariant
            from <= to <= text@.len(),
            part == text@.subrange(from as int, to as int),
            j <= wanted@.len() == names.len(),
            forall|k: int| 0 <= k < names.len() ==> (#[trigger] wanted@[k])@ == names[k],
            forall|k: int| 0 <= k < j ==> names[k] != part,
        decreases wanted@.len() - j,
    {
        let candidate = &wanted[j];
        if candidate.len() == to - from {
            let mut i: usize = 0;
            while i < candidate.len() && candidate[i] == text[from + i]
                invariant
                    from <= to <= text@.len(),
                    candidate@.len() == to - from,
                    i <= candidate@.len(),
                    forall|k: int| 0 <= k < i ==> candidate@[k] == text@[from + k],
                decreases candidate@.len() - i,
            {
                i += 1;
            }
            if i == candidate.len() {
                assert(candidate@ =~= part);
                assert(names[j as int] == part);
                return true;
            }
            assert(candidate@[i as int] != part[i as int]);
        }
        assert(names[j as int] == candidate@);
        j += 1;
    }
    false
}

/// Whether the class property `class` names one of `floating_classes`: the
/// first rule by which a window floats.
pub fn class_matches(class: &str, floating_classes: &[&str]) -> (found: bool)
    ensures
        found == has_piece_in(class@, CLASS_SEPARATOR, floating_classes.deep_view()),
{
    let text = chars_of(class);
    let mut wanted: Vec<Vec<char>> = Vec::new();
    let mut j: usize = 0;
    while j < floating_classes.len()
        invariant
            j <= floating_classes@.len(),
            wanted@.len() == j,
            forall|k: int| 0 <= k < j ==> (#[trigger] wanted@[k])@ == floating_classes@[k]@,
        decreases floating_classes@.len() - j,
    {
        wanted.push(chars_of(floating_classes[j]));
        j += 1;
    }
    let ghost names = floating_classes.deep_view();
    let mut start: usize = 0;
    let mut i: usize = 0;
    while i < text.len()
        invariant
            text@ == class@,
            names == floating_classes.deep_view(),
            wanted@.len() == names.len(),
            forall|k: int| 0 <= k < names.len() ==> (#[trigger] wanted@[k])@ == names[k],
            start <= i <= text@.len(),
            start == 0 || text@[start - 1] == CLASS_SEPARATOR,
            forall|k: int| start <= k < i ==> text@[k] != CLASS_SEPARATOR,
            forall|from: int, to: int|
                is_piece(text@, CLASS_SEPARATOR, from, to) && to < i ==> !names.contains(
                    #[trigger] text@.subrange(from, to),
                ),
        decreases text@.len() - i,
    {
        if text[i] == CLASS_SEPARATOR {
            if part_is_wanted(&text, start, i, &wanted, Ghost(names)) {
                assert(is_piece(text@, CLASS_SEPARATOR, start as int, i as int));
                return true;
            }
            assert forall|from: int, to: int|
                is_piece(text@, CLASS_SEPARATOR, from, to) && to < i + 1 implies !names.contains(
                #[trigger] text@.subrange(from, to),
            ) by {
                if to == i {
                    assert(from == start) by {
                        if from < start {
                            assert(text@[start - 1] == CLASS_SEPARATOR);
                        } else if from > start {
                            assert(text@[from - 1] == CLASS_SEPARATOR);
                        }
                    }
                }
            }
            start = i + 1;
        }
        i += 1;
    }
    let found = part_is_wanted(&text, start, i, &wanted, Ghost(names));
    proof {
        if found {
            assert(is_piece(text@, CLASS_SEPARATOR, start as int, i as int));
        } else {
            assert forall|from: int, to: int|
                is_piece(text@, CLASS_SEPARATOR, from, to) implies !names.contains(
                #[trigger] text@.subrange(from, to),
            ) by {
                if to == i {
                    assert(from == start) by {
                        if from < start {
                            assert(text@[start - 1] == CLASS_SEPARATOR);
                        } else if from > start {
                            assert(text@[from - 1] == CLASS_SEPARATOR);
                        }
                    }
                }
            }
        }
    }
    found
}

/// Whether `wanted` holds `t`.
fn type_is_wanted(t: u32, wanted: &[u32]) -> (found: bool)
    ensures
        found == wanted@.contains(t),
{
    let mut j: usize = 0;
    while j < wanted.len()
        invariant
            j <= wanted@.len(),
            forall|k: int| 0 <= k < j ==> wanted@[k] != t,
        decreases wanted@.len() - j,
    {
        if wanted[j] == t {
            return true;
        }
        j += 1;
    }
    false
}

/// Whether one of `types` is among `wanted`.
pub fn has_type_in(types: &[u32], wanted: &[u32]) -> (found: bool)
    ensures
        found == any_type_in(types@, wanted@),
{
    let mut i: usize = 0;
    while i < types.len()
        invariant
            i <= types@.len(),
            forall|k: int| 0 <= k < i ==> !wanted@.contains(#[trigger] types@[k]),
        decreases types@.len() - i,
    {
        if type_is_wanted(types[i], wanted) {
            return true;
        }
        i += 1;
    }
    false
}

/// Whether the reply to the read of a window's types shows one of
/// `win_types`. A read that failed (`None`) shows none.
pub fn window_has_type_in(reply: Option<&[u32]>, win_types: &[u32]) -> (found: bool)
    ensures
        found == reply_has_type_in(types_of(reply), win_types@),
{
    match reply {
        Some(types) => has_type_in(types, win_types),
        None => false,
    }
}

/// A class property that may not have been read, as text.
pub open spec fn text_of(class: Option<&str>) -> Option<Seq<char>> {
    match class {
        Some(c) => Some(c@),
        None => None,
    }
}

/// A list of window types that may not have been read, as a sequence.
pub open spec fn types_of(reply: Option<&[u32]>) -> Option<Seq<u32>> {
    match reply {
        Some(t) => Some(t@),
        None => None,
    }
}

/// Windows with the replies to the reads of their types, as sequences.
pub open spec fn seen(windows: Seq<(WinId, Option<Vec<u32>>)>) -> Seq<(WinId, Option<Seq<u32>>)> {
    Seq::new(
        windows.len(),
        |i: int|
            (
                windows[i].0,
                match windows[i].1 {
                    Some(t) => Some(t@),
                    None => None,
                },
            ),
    )
}

/// A window whose class names one of the floating classes floats, whatever
/// its window types are and whether or not they could be read.
pub proof fn lemma_floating_class_wins(
    class: Seq<char>,
    types: Option<Seq<u32>>,
    floating: Seq<Seq<char>>,
    auto_float: Seq<u32>,
)
    requires
        has_piece_in(class, CLASS_SEPARATOR, floating),
    ensures
        should_float(Some(class), types, floating, auto_float),
{
}

/// A window that has one of the floating types floats, whatever its class is
/// and whether or not it could be read.
pub proof fn lemma_floating_type_floats(
    class: Option<Seq<char>>,
    types: Seq<u32>,
    floating: Seq<Seq<char>>,
    auto_float: Seq<u32>,
    at: int,
)
    requires
        0 <= at < types.len(),
        auto_float.contains(types[at]),
    ensures
        should_float(class, Some(types), floating, auto_float),
{
}

/// A window with neither a floating class nor a floating type is tiled.
pub proof fn lemma_otherwise_tiled(
    class: Option<Seq<char>>,
    types: Option<Seq<u32>>,
    floating: Seq<Seq<char>>,
    auto_float: Seq<u32>,
)
    requires
        class matches Some(c) ==> !has_piece_in(c, CLASS_SEPARATOR, floating),
        types matches Some(t) ==> !any_type_in(t, auto_float),
    ensures
        !should_float(class, types, floating, auto_float),
{
}

/// Decides whether a window floats, from its class property and its window
/// types, each `None` where it could not be read.
pub fn window_should_float(
    class: Option<&str>,
    types: Option<&[u32]>,
    floating_classes: &[&str],
    auto_float: &[u32],
) -> (float: bool)
    ensures
        float == should_float(
            text_of(class),
            types_of(types),
            floating_classes.deep_view(),
            auto_float@,
        ),
        (class matches Some(c) && has_piece_in(c@, CLASS_SEPARATOR, floating_classes.deep_view()))
            ==> float,
{
    match class {
        Some(c) => {
            if class_matches(c, floating_classes) {
                return true;
            }
        },
        None => {},
    }
    window_has_type_in(types, auto_float)
}

/// A window is among the manageable ones exactly if it was given with a reply
/// that shows none of the unmanaged types.
pub proof fn lemma_manageable_members(
    windows: Seq<(WinId, Option<Seq<u32>>)>,
    unmanaged: Seq<u32>,
    id: WinId,
)
    ensures
        manageable(windows, unmanaged).contains(id) <==> exists|i: int|
            0 <= i < windows.len() && (#[trigger] windows[i]).0 == id && !reply_has_type_in(
                windows[i].1,
                unmanaged,
            ),
    decreases windows.len(),
{
    if windows.len() > 0 {
        let front = windows.drop_last();
        let before = manageable(front, unmanaged);
        let kept = !reply_has_type_in(windows.last().1, unmanaged);
        lemma_manageable_members(front, unmanaged, id);
        if manageable(windows, unmanaged).contains(id) {
            if before.contains(id) {
                let i = choose|i: int|
                    0 <= i < front.len() && (#[trigger] front[i]).0 == id && !reply_has_type_in(
                        front[i].1,
                        unmanaged,
                    );
                assert(windows[i] == front[i]);
            } else {
                assert(kept);
                let k = choose|k: int|
                    0 <= k < manageable(windows, unmanaged).len() && manageable(
                        windows,
                        unmanaged,
                    )[k] == id;
                if k < before.len() {
                    assert(before[k] == id);
                }
                assert(windows[windows.len() - 1].0 == id);
            }
        }
        if exists|i: int|
            0 <= i < windows.len() && (#[trigger] windows[i]).0 == id && !reply_has_type_in(
                windows[i].1,
                unmanaged,
            ) {
            let i = choose|i: int|
                0 <= i < windows.len() && (#[trigger] windows[i]).0 == id && !reply_has_type_in(
                    windows[i].1,
                    unmanaged,
                );
            if i < front.len() {
                assert(front[i] == windows[i]);
                assert(before.contains(id));
                let k = choose|k: int| 0 <= k < before.len() && before[k] == id;
                assert(manageable(windows, unmanaged)[k] == id);
            } else {
                assert(manageable(windows, unmanaged) == before.push(id));
                assert(before.push(id)[before.len() as int] == id);
            }
        }
    }
}

/// Picks the windows to manage among `windows`, each given with the reply to
/// the read of its types (`None` where the read failed): the windows that
/// show none of the `unmanaged` types, in the order given.
pub fn manageable_windows(windows: &[(WinId, Option<Vec<u32>>)], unmanaged: &[u32]) -> (ids: Vec<
    WinId,
>)
    ensures
        ids@ == manageable(seen(windows@), unmanaged@),
        forall|id: WinId|
            ids@.contains(id) <==> exists|i: int|
                0 <= i < windows@.len() && (#[trigger] seen(windows@)[i]).0 == id
                    && !reply_has_type_in(seen(windows@)[i].1, unmanaged@),
{
    let mut ids: Vec<WinId> = Vec::new();
    let mut i: usize = 0;
    while i < windows.len()
        invariant
            i <= windows@.len(),
            ids@ == manageable(seen(windows@).take(i as int), unmanaged@),
        decreases windows@.len() - i,
    {
        let excluded = match &windows[i].1 {
            Some(types) => window_has_type_in(Some(types.as_slice()), unmanaged),
            None => window_has_type_in(None, unmanaged),
        };
        proof {
            let upto = seen(windows@).take(i + 1);
            assert(upto.drop_last() =~= seen(windows@).take(i as int));
            assert(upto.last() == seen(windows@)[i as int]);
            assert(excluded == reply_has_type_in(upto.last().1, unmanaged@));
        }
        if !excluded {
            ids.push(windows[i].0);
        }
        i += 1;
    }
    proof {
        assert(seen(windows@).take(i as int) =~= seen(windows@));
        assert forall|id: WinId|
            ids@.contains(id) <==> exists|i: int|
                0 <= i < windows@.len() && (#[trigger] seen(windows@)[i]).0 == id
                    && !reply_has_type_in(seen(windows@)[i].1, unmanaged@) by {
            lemma_manageable_members(seen(windows@), unmanaged@, id);
        }
    }
    ids
}

} // verus!
