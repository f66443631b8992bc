//! Merging the pages of the three issue queries into one list in which the
//! first copy of an issue wins.

use vstd::prelude::*;
use crate::queries::structs::active_issues::Issue;

verus! {

/// Some issue of `issues` has this identifier.
pub open spec fn holds(issues: Seq<Issue>, identifier: Seq<char>) -> bool {
    exists|k: int| 0 <= k < issues.len() && #[trigger] issues[k].identifier@ == identifier
}

/// No two issues of `issues` share an identifier.
pub open spec fn distinct(issues: Seq<Issue>) -> bool {
    forall|i: int, j: int|
        0 <= i < j < issues.len() ==> #[trigger] issues[i].identifier@
            != #[trigger] issues[j].identifier@
}

/// `kept`, followed by those issues of `incoming` whose identifier was not
/// seen before them, in the order of `incoming`.
pub open spec fn append_unseen(kept: Seq<Issue>, incoming: Seq<Issue>) -> Seq<Issue>
    decreases incoming.len(),
{
    if incoming.len() == 0 {
        kept
    } else if holds(kept, incoming[0].identifier@) {
        append_unseen(kept, incoming.drop_first())
    } else {
        append_unseen(kept.push(incoming[0]), incoming.drop_first())
    }
}

/// The merged list: every finished issue, then every active one, then the
/// open ones that are new by their identifier.
pub open spec fn merged(done: Seq<Issue>, active: Seq<Issue>, todo: Seq<Issue>) -> Seq<Issue> {
    append_unseen(done + active, todo)
}

/// Whether an issue with this identifier is in the list.
pub fn contains_identifier(issues: &Vec<Issue>, identifier: &String) -> (found: bool)
    ensures
        found == holds(issues@, identifier@),
{
    let mut i: usize = 0;
    while i < issues.len()
        invariant
            i <= issues.len(),
            forall|k: int| 0 <= k < i ==> issues@[k].identifier@ != identifier@,
        decreases issues.len() - i,
    {
        if issues[i].identifier == *identifier {
            return true;
        }
        i += 1;
    }
    false
}

/// Appends to `kept` each issue of `incoming` whose identifier `kept` does
/// not hold by then.
pub fn extend_unseen(kept: &mut Vec<Issue>, incoming: Vec<Issue>)
    ensures
        final(kept)@ == append_unseen(old(kept)@, incoming@),
{
    let ghost all = incoming@;
    assert(all.skip(0) == all);
    for issue in it: incoming
        invariant
            it.seq() == all,
            append_unseen(kept@, all.skip(it.index())) == append_unseen(old(kept)@, all),
    {
        proof {
            let rest = all.skip(it.index());
            assert(rest[0] == issue);
            assert(rest.drop_first() == all.skip(it.index() + 1));
        }
        if !contains_identifier(kept, &issue.identifier) {
            kept.push(issue);
        }
    }
}

/// Merges the three pages. The finished and the active issues are all
/// kept; an open issue is kept unless an issue with its identifier came
/// before it.
pub fn merge(done: Vec<Issue>, active: Vec<Issue>, todo: Vec<Issue>) -> (all: Vec<Issue>)
    ensures
        all@ == merged(done@, active@, todo@),
{
    let mut all = done;
    let mut active = active;
    all.append(&mut active);
    extend_unseen(&mut all, todo);
    all
}

/// Appending leaves `kept` in front, unchanged.
pub proof fn append_unseen_keeps_front(kept: Seq<Issue>, incoming: Seq<Issue>)
    ensures
        kept.len() <= append_unseen(kept, incoming).len(),
        append_unseen(kept, incoming).subrange(0, kept.len() as int) == kept,
    decreases incoming.len(),
{
    if incoming.len() == 0 {
        assert(kept.subrange(0, kept.len() as int) == kept);
    } else if holds(kept, incoming[0].identifier@) {
        append_unseen_keeps_front(kept, incoming.drop_first());
    } else {
        let longer = kept.push(incoming[0]);
        append_unseen_keeps_front(longer, incoming.drop_first());
        let out = append_unseen(longer, incoming.drop_first());
        assert(out.subrange(0, kept.len() as int) == out.subrange(0, longer.len() as int).subrange(
            0,
            kept.len() as int,
        ));
        assert(longer.subrange(0, kept.len() as int) == kept);
    }
}

/// The result holds an identifier exactly if `kept` or `incoming` does.
pub proof fn append_unseen_holds(kept: Seq<Issue>, incoming: Seq<Issue>, identifier: Seq<char>)
    ensures
        holds(append_unseen(kept, incoming), identifier) <==> holds(kept, identifier) || holds(
            incoming,
            identifier,
        ),
    decreases incoming.len(),
{
    if incoming.len() == 0 {
    } else {
        let first = incoming[0];
        let rest = incoming.drop_first();
        assert(holds(incoming, identifier) <==> first.identifier@ == identifier || holds(
            rest,
            identifier,
        )) by {
            if holds(incoming, identifier) {
                let k = choose|k: int|
                    0 <= k < incoming.len() && #[trigger] incoming[k].identifier@ == identifier;
                if k > 0 {
                    assert(rest[k - 1].identifier@ == identifier);
                }
            }
            if holds(rest, identifier) {
                let k = choose|k: int|
                    0 <= k < rest.len() && #[trigger] rest[k].identifier@ == identifier;
                assert(incoming[k + 1].identifier@ == identifier);
            }
            if first.identifier@ == identifier {
                assert(incoming[0].identifier@ == identifier);
            }
        }
        if holds(kept, first.identifier@) {
            append_unseen_holds(kept, rest, identifier);
        } else {
            let longer = kept.push(first);
            append_unseen_holds(longer, rest, identifier);
            assert(holds(longer, identifier) <==> holds(kept, identifier) || first.identifier@
                == identifier) by {
                if holds(kept, identifier) {
                    let k = choose|k: int|
                        0 <= k < kept.len() && #[trigger] kept[k].identifier@ == identifier;
                    assert(longer[k].identifier@ == identifier);
                }
                if first.identifier@ == identifier {
                    assert(longer[kept.len() as int].identifier@ == identifier);
                }
                if holds(longer, identifier) {
                    let k = choose|k: int|
                        0 <= k < longer.len() && #[trigger] longer[k].identifier@ == identifier;
                    if k < kept.len() {
                        assert(kept[k].identifier@ == identifier);
                    }
                }
            }
        }
    }
}

/// Appending to a list without duplicates gives a list without duplicates.
pub proof fn append_unseen_distinct(kept: Seq<Issue>, incoming: Seq<Issue>)
    requires
        distinct(kept),
    ensures
        distinct(append_unseen(kept, incoming)),
    decreases incoming.len(),
{
    if incoming.len() == 0 {
    } else if holds(kept, incoming[0].identifier@) {
        append_unseen_distinct(kept, incoming.drop_first());
    } else {
        let longer = kept.push(incoming[0]);
        assert(distinct(longer)) by {
            assert forall|i: int, j: int| 0 <= i < j < longer.len() implies #[trigger] longer[i]
                .identifier@ != #[trigger] longer[j].identifier@ by {
                if j < kept.len() {
                    assert(kept[i].identifier@ != kept[j].identifier@);
                } else {
                    assert(kept[i].identifier@ != incoming[0].identifier@);
                }
            }
        }
        append_unseen_distinct(longer, incoming.drop_first());
    }
}

/// Merging yields no two issues with the same identifier, provided that the
/// finished and the active issues, which are all kept, hold none. Without
/// that the merged list repeats what they repeat.
pub proof fn merge_has_no_duplicates(done: Seq<Issue>, active: Seq<Issue>, todo: Seq<Issue>)
    ensures
        distinct(merged(done, active, todo)) <==> distinct(done + active),
{
    let front = done + active;
    let all = merged(done, active, todo);
    if distinct(front) {
        append_unseen_distinct(front, todo);
    }
    if distinct(all) {
        append_unseen_keeps_front(front, todo);
        assert forall|i: int, j: int| 0 <= i < j < front.len() implies #[trigger] front[i]
            .identifier@ != #[trigger] front[j].identifier@ by {
            assert(all.subrange(0, front.len() as int)[i] == all[i]);
            assert(all.subrange(0, front.len() as int)[j] == all[j]);
        }
    }
}

/// The merged list starts with the finished issues followed by the active
/// ones, each as it was handed in: where an open issue shares its
/// identifier with one of them, the earlier copy is the one that stays.
pub proof fn merge_keeps_earlier_copies(done: Seq<Issue>, active: Seq<Issue>, todo: Seq<Issue>)
    ensures
        done.len() + active.len() <= merged(done, active, todo).len(),
        merged(done, active, todo).subrange(0, (done + active).len() as int) == done + active,
{
    append_unseen_keeps_front(done + active, todo);
}

/// The merged list holds an identifier exactly if one of the three pages
/// does.
pub proof fn merge_covers_pages(
    done: Seq<Issue>,
    active: Seq<Issue>,
    todo: Seq<Issue>,
    identifier: Seq<char>,
)
    ensures
        holds(merged(done, active, todo), identifier) <==> holds(done, identifier) || holds(
            active,
            identifier,
        ) || holds(todo, identifier),
{
    let front = done + active;
    append_unseen_holds(front, todo, identifier);
    if holds(done, identifier) {
        let k = choose|k: int| 0 <= k < done.len() && #[trigger] done[k].identifier@ == identifier;
        assert(front[k].identifier@ == identifier);
    }
    if holds(active, identifier) {
        let k = choose|k: int|
            0 <= k < active.len() && #[trigger] active[k].identifier@ == identifier;
        assert(front[done.len() + k].identifier@ == identifier);
    }
    if holds(front, identifier) {
        let k = choose|k: int|
            0 <= k < front.len() && #[trigger] front[k].identifier@ == identifier;
        if k < done.len() {
            assert(done[k].identifier@ == identifier);
        } else {
            assert(active[k - done.len()].identifier@ == identifier);
        }
    }
}

} // verus!
