//! Records of running processes and the order in which they are listed.
use vstd::prelude::*;
use crate::text::{
    lemma_text_less_irreflexive, lemma_text_less_total, lemma_text_less_transitive, text_less,
    text_lt,
};

verus! {

/// One running process, as a snapshot of the process table saw it.
#[derive(Clone, Debug)]
pub struct ProcessInfo {
    /// The process id, as text.
    pub pid: String,
    pub name: String,
    /// The path of its executable, where it could be resolved.
    pub exe: Option<String>,
}

/// An optional text replaced by its view.
pub open spec fn opt_text(o: Option<String>) -> Option<Seq<char>> {
    match o {
        Some(s) => Some(s@),
        None => None,
    }
}

/// The line that lists a process: `name (pid) - path`, or `name (pid)`.
pub open spec fn display_line(p: ProcessInfo) -> Seq<char> {
    match p.exe {
        Some(exe) => p.name@ + " ("@ + p.pid@ + ") - "@ + exe@,
        None => p.name@ + " ("@ + p.pid@ + ")"@,
    }
}

impl ProcessInfo {
    /// A record of the process `pid` named `name`, with its executable path
    /// if one is known.
    pub fn new(pid: String, name: String, exe: Option<String>) -> (r: ProcessInfo)
        ensures
            r.pid@ == pid@,
            r.name@ == name@,
            opt_text(r.exe) == opt_text(exe),
    {
        ProcessInfo { pid, name, exe }
    }

    /// The line that lists the process.
    pub fn display_text(&self) -> (r: String)
        ensures
            r@ == display_line(*self),
    {
        let mut line = self.name.clone();
        line.append(" (");
        line.append(self.pid.as_str());
        match &self.exe {
            Some(exe) => {
                line.append(") - ");
                line.append(exe.as_str());
            },
            None => {
                line.append(")");
            },
        }
        line
    }

    /// A copy of the executable path, if known.
    pub fn executable_path(&self) -> (r: Option<String>)
        ensures
            opt_text(r) == opt_text(self.exe),
    {
        match &self.exe {
            Some(exe) => Some(exe.clone()),
            None => None,
        }
    }
}

/// `s` with `x` placed after every entry whose name is not greater than
/// `x`'s, counting from the back; on a list sorted by name this keeps it
/// sorted and leaves `x` after the entries of equal name.
pub open spec fn insert_by_name(s: Seq<ProcessInfo>, x: ProcessInfo) -> Seq<ProcessInfo>
    decreases s.len(),
{
    if s.len() > 0 && text_less(x.name@, s.last().name@) {
        insert_by_name(s.drop_last(), x).push(s.last())
    } else {
        s.push(x)
    }
}

/// `s` sorted by name, stably: entries of equal name keep their order.
pub open spec fn sorted_by_name(s: Seq<ProcessInfo>) -> Seq<ProcessInfo>
    decreases s.len(),
{
    if s.len() == 0 {
        s
    } else {
        insert_by_name(sorted_by_name(s.drop_last()), s.last())
    }
}

/// No entry of `s` has a name after that of a later entry.
pub open spec fn is_sorted_by_name(s: Seq<ProcessInfo>) -> bool {
    forall|i: int, j: int|
        0 <= i < j < s.len() ==> !text_less(#[trigger] s[j].name@, #[trigger] s[i].name@)
}

proof fn lemma_insert_len(s: Seq<ProcessInfo>, x: ProcessInfo)
    ensures
        insert_by_name(s, x).len() == s.len() + 1,
    decreases s.len(),
{
    if s.len() > 0 {
        lemma_insert_len(s.drop_last(), x);
    }
}

proof fn lemma_insert_multiset(s: Seq<ProcessInfo>, x: ProcessInfo)
    ensures
        insert_by_name(s, x).to_multiset() =~= s.to_multiset().insert(x),
    decreases s.len(),
{
    broadcast use vstd::seq_lib::group_to_multiset_ensures;

    if s.len() > 0 {
        assert(s =~= s.drop_last().push(s.last()));
        if text_less(x.name@, s.last().name@) {
            lemma_insert_multiset(s.drop_last(), x);
        }
    }
}

proof fn lemma_insert_all(s: Seq<ProcessInfo>, x: ProcessInfo, p: spec_fn(ProcessInfo) -> bool)
    requires
        forall|j: int| 0 <= j < s.len() ==> p(#[trigger] s[j]),
        p(x),
    ensures
        forall|k: int| 0 <= k < insert_by_name(s, x).len() ==> p(#[trigger] insert_by_name(s, x)[k]),
    decreases s.len(),
{
    lemma_insert_len(s, x);
    if s.len() > 0 && text_less(x.name@, s.last().name@) {
        lemma_insert_all(s.drop_last(), x, p);
        lemma_insert_len(s.drop_last(), x);
    }
}

proof fn lemma_insert_sorted(s: Seq<ProcessInfo>, x: ProcessInfo)
    requires
        is_sorted_by_name(s),
    ensures
        is_sorted_by_name(insert_by_name(s, x)),
    decreases s.len(),
{
    lemma_insert_len(s, x);
    if s.len() == 0 {
        return;
    }
    let last = s.last();
    if text_less(x.name@, last.name@) {
        let t = s.drop_last();
        let ins = insert_by_name(t, x);
        lemma_insert_sorted(t, x);
        lemma_insert_len(t, x);
        if text_less(last.name@, x.name@) {
            lemma_text_less_transitive(x.name@, last.name@, x.name@);
            lemma_text_less_irreflexive(x.name@);
        }
        let p = |e: ProcessInfo| !text_less(last.name@, e.name@);
        lemma_insert_all(t, x, p);
        let r = ins.push(last);
        assert forall|i: int, j: int| 0 <= i < j < r.len() implies !text_less(
            #[trigger] r[j].name@,
            #[trigger] r[i].name@,
        ) by {
            if j == r.len() - 1 {
                assert(p(ins[i]));
            } else {
                assert(r[i] == ins[i] && r[j] == ins[j]);
            }
        }
    } else {
        let r = s.push(x);
        assert forall|i: int, j: int| 0 <= i < j < r.len() implies !text_less(
            #[trigger] r[j].name@,
            #[trigger] r[i].name@,
        ) by {
            if j == s.len() && i < s.len() - 1 && text_less(x.name@, s[i].name@) {
                assert(!text_less(last.name@, s[i].name@));
                if s[i].name@ != last.name@ {
                    lemma_text_less_total(s[i].name@, last.name@);
                    lemma_text_less_transitive(x.name@, s[i].name@, last.name@);
                }
            }
        }
    }
}

/// Sorting lists the same processes, as many times each, ordered by name.
pub proof fn lemma_sorted_by_name(s: Seq<ProcessInfo>)
    ensures
        sorted_by_name(s).len() == s.len(),
        sorted_by_name(s).to_multiset() == s.to_multiset(),
        is_sorted_by_name(sorted_by_name(s)),
    decreases s.len(),
{
    broadcast use vstd::seq_lib::group_to_multiset_ensures;

    if s.len() > 0 {
        let t = sorted_by_name(s.drop_last());
        lemma_sorted_by_name(s.drop_last());
        lemma_insert_len(t, s.last());
        lemma_insert_multiset(t, s.last());
        lemma_insert_sorted(t, s.last());
        assert(s =~= s.drop_last().push(s.last()));
    }
}

/// Sorts processes by name, keeping the order of those with equal names.
pub fn sort_by_name(v: Vec<ProcessInfo>) -> (r: Vec<ProcessInfo>)
    ensures
        r@ == sorted_by_name(v@),
        r@.len() == v@.len(),
        is_sorted_by_name(r@),
        r@.to_multiset() == v@.to_multiset(),
{
    proof {
        lemma_sorted_by_name(v@);
    }
    let ghost orig = v@;
    let mut rest = v;
    let mut out: Vec<ProcessInfo> = Vec::new();
    let mut k: usize = 0;
    let total = rest.len();
    assert(orig.take(0) =~= Seq::<ProcessInfo>::empty());
    assert(orig.skip(0) =~= orig);
    while rest.len() > 0
        invariant
            out@ == sorted_by_name(orig.take(k as int)),
            rest@ == orig.skip(k as int),
            k + rest.len() == orig.len(),
            orig.len() == total,
        decreases rest.len(),
    {
        let x = rest.remove(0);
        assert(rest@ =~= orig.skip(k + 1));
        let mut j: usize = out.len();
        assert(out@.take(j as int) =~= out@);
        assert(out@.skip(j as int) =~= Seq::<ProcessInfo>::empty());
        assert(insert_by_name(out@, x) =~= insert_by_name(out@.take(j as int), x) + out@.skip(
            j as int,
        ));
        while j > 0 && text_lt(x.name.as_str(), out[j - 1].name.as_str())
            invariant
                j <= out.len(),
                insert_by_name(out@, x) == insert_by_name(out@.take(j as int), x) + out@.skip(
                    j as int,
                ),
            decreases j,
        {
            let ghost t = out@.take(j as int);
            assert(t.drop_last() =~= out@.take(j - 1));
            assert(insert_by_name(t, x) == insert_by_name(out@.take(j - 1), x).push(out@[j - 1]));
            assert(insert_by_name(out@.take(j - 1), x).push(out@[j - 1]) + out@.skip(j as int)
                =~= insert_by_name(out@.take(j - 1), x) + out@.skip(j - 1));
            j = j - 1;
        }
        let ghost before = out@;
        out.insert(j, x);
        assert(out@ =~= before.take(j as int).push(x) + before.skip(j as int));
        assert(orig.take(k + 1).drop_last() =~= orig.take(k as int));
        k = k + 1;
    }
    assert(orig.take(k as int) =~= orig);
    out
}

} // verus!
