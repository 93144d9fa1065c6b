//! A snapshot of the operating system's process table, and the terminations
//! that reap steps issue against it.

use vstd::prelude::*;
use crate::reaper::{reap_plan_spec, ReapStep};
use crate::command::Platform;

verus! {

/// One running process: its id, its parent's id and its executable name.
pub struct ProcessEntry {
    pub pid: u32,
    pub parent: u32,
    pub name: String,
}

/// No process is its own parent.
pub open spec fn table_wf(t: Seq<ProcessEntry>) -> bool {
    forall|i: int| 0 <= i < t.len() ==> #[trigger] t[i].pid != t[i].parent
}

/// The ids of the direct children of `p`, in table order.
pub open spec fn children_of(t: Seq<ProcessEntry>, p: u32) -> Seq<u32>
    decreases t.len(),
{
    if t.len() == 0 {
        seq![]
    } else {
        let rest = children_of(t.drop_last(), p);
        if t.last().parent == p {
            rest.push(t.last().pid)
        } else {
            rest
        }
    }
}

/// The ids of the processes whose executable name is `name`, in table order.
pub open spec fn named(t: Seq<ProcessEntry>, name: Seq<char>) -> Seq<u32>
    decreases t.len(),
{
    if t.len() == 0 {
        seq![]
    } else {
        let rest = named(t.drop_last(), name);
        if t.last().name@ == name {
            rest.push(t.last().pid)
        } else {
            rest
        }
    }
}

/// The termination signals that one reap step sends, in order.
pub open spec fn step_terminations(t: Seq<ProcessEntry>, step: ReapStep) -> Seq<u32> {
    match step {
        ReapStep::KillChildren { parent } => children_of(t, parent),
        ReapStep::KillTree { root } => children_of(t, root).push(root),
        ReapStep::KillHandle { pid } => seq![pid],
    }
}

/// The termination signals that a sequence of reap steps sends, in order.
pub open spec fn plan_terminations(t: Seq<ProcessEntry>, plan: Seq<ReapStep>) -> Seq<u32>
    decreases plan.len(),
{
    if plan.len() == 0 {
        seq![]
    } else {
        plan_terminations(t, plan.drop_last()) + step_terminations(t, plan.last())
    }
}

/// The direct children of `parent` in `table`.
pub fn children_pids(table: &Vec<ProcessEntry>, parent: u32) -> (r: Vec<u32>)
    ensures
        r@ == children_of(table@, parent),
{
    let mut r: Vec<u32> = Vec::new();
    let mut i: usize = 0;
    while i < table.len()
        invariant
            i <= table@.len(),
            r@ == children_of(table@.subrange(0, i as int), parent),
        decreases table@.len() - i,
    {
        assert(table@.subrange(0, i as int + 1).drop_last() =~= table@.subrange(0, i as int));
        if table[i].parent == parent {
            r.push(table[i].pid);
        }
        i = i + 1;
    }
    assert(table@.subrange(0, table@.len() as int) =~= table@);
    r
}

/// The processes in `table` whose executable name is `name`.
pub fn named_pids(table: &Vec<ProcessEntry>, name: &String) -> (r: Vec<u32>)
    ensures
        r@ == named(table@, name@),
{
    let mut r: Vec<u32> = Vec::new();
    let mut i: usize = 0;
    while i < table.len()
        invariant
            i <= table@.len(),
            r@ == named(table@.subrange(0, i as int), name@),
        decreases table@.len() - i,
    {
        assert(table@.subrange(0, i as int + 1).drop_last() =~= table@.subrange(0, i as int));
        if table[i].name == *name {
            r.push(table[i].pid);
        }
        i = i + 1;
    }
    assert(table@.subrange(0, table@.len() as int) =~= table@);
    r
}

/// The termination signals that `plan` sends against `table`, in order.
pub fn issued_terminations(table: &Vec<ProcessEntry>, plan: &Vec<ReapStep>) -> (r: Vec<u32>)
    ensures
        r@ == plan_terminations(table@, plan@),
{
    let mut r: Vec<u32> = Vec::new();
    let mut i: usize = 0;
    while i < plan.len()
        invariant
            i <= plan@.len(),
            r@ == plan_terminations(table@, plan@.subrange(0, i as int)),
        decreases plan@.len() - i,
    {
        assert(plan@.subrange(0, i as int + 1).drop_last() =~= plan@.subrange(0, i as int));
        let mut sent = match plan[i] {
            ReapStep::KillChildren { parent } => children_pids(table, parent),
            ReapStep::KillTree { root } => {
                let mut v = children_pids(table, root);
                v.push(root);
                v
            },
            ReapStep::KillHandle { pid } => vec![pid],
        };
        r.append(&mut sent);
        i = i + 1;
    }
    assert(plan@.subrange(0, plan@.len() as int) =~= plan@);
    r
}

proof fn lemma_child_listed(t: Seq<ProcessEntry>, p: u32, i: int)
    requires
        0 <= i < t.len(),
        t[i].parent == p,
    ensures
        exists|j: int| 0 <= j < children_of(t, p).len() && children_of(t, p)[j] == t[i].pid,
    decreases t.len(),
{
    let rest = children_of(t.drop_last(), p);
    if i == t.len() - 1 {
        assert(children_of(t, p)[rest.len() as int] == t[i].pid);
    } else {
        lemma_child_listed(t.drop_last(), p, i);
        let j = choose|j: int| 0 <= j < rest.len() && rest[j] == t.drop_last()[i].pid;
        assert(children_of(t, p)[j] == t[i].pid);
    }
}

proof fn lemma_listed_child(t: Seq<ProcessEntry>, p: u32, k: int)
    requires
        0 <= k < children_of(t, p).len(),
    ensures
        exists|i: int| 0 <= i < t.len() && t[i].parent == p && t[i].pid == children_of(t, p)[k],
    decreases t.len(),
{
    let rest = children_of(t.drop_last(), p);
    if k < rest.len() {
        lemma_listed_child(t.drop_last(), p, k);
        let i = choose|i: int|
            0 <= i < t.drop_last().len() && t.drop_last()[i].parent == p
                && t.drop_last()[i].pid == rest[k];
        assert(t[i] == t.drop_last()[i]);
    } else {
        assert(t[t.len() - 1].pid == children_of(t, p)[k]);
    }
}

/// Reaping `p` terminates each of its direct children before it terminates
/// `p`: a child is signalled, `p` is signalled, and every signal to `p`
/// comes after some signal to the child.
pub proof fn lemma_children_terminated_before_root(
    platform: Platform,
    t: Seq<ProcessEntry>,
    p: u32,
    i: int,
)
    requires
        table_wf(t),
        0 <= i < t.len(),
        t[i].parent == p,
    ensures
        ({
            let sig = plan_terminations(t, reap_plan_spec(platform, p));
            &&& exists|j: int| 0 <= j < sig.len() && sig[j] == t[i].pid
            &&& exists|k: int| 0 <= k < sig.len() && sig[k] == p
            &&& forall|k: int|
                0 <= k < sig.len() && sig[k] == p ==> exists|j: int|
                    0 <= j < k && sig[j] == t[i].pid
        }),
{
    let plan = reap_plan_spec(platform, p);
    let kids = children_of(t, p);
    let sig = plan_terminations(t, plan);
    assert(plan.drop_last().drop_last() =~= Seq::<ReapStep>::empty());
    assert(plan.drop_last().last() == plan[0]);
    assert(plan_terminations(t, plan.drop_last().drop_last()) =~= Seq::<u32>::empty());
    assert(plan_terminations(t, plan.drop_last()) =~= step_terminations(t, plan[0]));
    let tail = match platform {
        Platform::Unix => seq![p],
        Platform::Windows => seq![p, p],
    };
    assert(sig =~= kids + tail);
    lemma_child_listed(t, p, i);
    let j = choose|j: int| 0 <= j < kids.len() && kids[j] == t[i].pid;
    assert(sig[j] == t[i].pid);
    assert(sig[kids.len() as int] == p);
    assert forall|k: int| 0 <= k < sig.len() && sig[k] == p implies exists|j2: int|
        0 <= j2 < k && sig[j2] == t[i].pid by {
        if k < kids.len() {
            lemma_listed_child(t, p, k);
            let i2 = choose|i2: int| 0 <= i2 < t.len() && t[i2].parent == p && t[i2].pid == kids[k];
            assert(t[i2].pid != t[i2].parent);
        }
        assert(sig[j] == t[i].pid);
    }
}

} // verus!
