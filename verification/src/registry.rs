//! The live mapping of tool name to loaded capability. The watched
//! directory is scanned at the process edge; each scan hands this module
//! one outcome per discovered module (a tool entry, or a load failure),
//! and the mapping is replaced wholesale with the well-formed ones — a
//! module that fails to load is skipped, never fatal.
use vstd::prelude::*;

use crate::json::Json;
use crate::json::clone_json;
use crate::msg::FunctionSpec;
use crate::msg::Tool;

verus! {

/// One loaded tool: its wire-visible spec and the handle under which the
/// process edge holds its executable capability.
#[derive(Debug)]
pub struct ToolEntry {
    pub name: String,
    pub description: String,
    pub parameters: Json,
    pub handle: usize,
}

/// Whether some entry of `s` is named `n`.
pub open spec fn has_name(s: Seq<ToolEntry>, n: Seq<char>) -> bool {
    exists|i: int| 0 <= i < s.len() && s[i].name@ == n
}

/// The first registered entry named `n`, if any.
pub open spec fn find_entry(s: Seq<ToolEntry>, n: Seq<char>) -> Option<ToolEntry>
    decreases s.len(),
{
    if s.len() == 0 {
        None
    } else if s[0].name@ == n {
        Some(s[0])
    } else {
        find_entry(s.drop_first(), n)
    }
}

/// A name is found exactly when some entry bears it.
pub proof fn lemma_find_entry_has_name(s: Seq<ToolEntry>, n: Seq<char>)
    ensures
        find_entry(s, n) is Some <==> has_name(s, n),
        find_entry(s, n) matches Some(e) ==> exists|i: int| 0 <= i < s.len() && s[i] == e,
    decreases s.len(),
{
    if s.len() > 0 {
        lemma_find_entry_has_name(s.drop_first(), n);
        if s[0].name@ == n {
            assert(s[0].name@ == n && 0 <= 0 < s.len());
        } else {
            if has_name(s.drop_first(), n) {
                let i = choose|i: int|
                    0 <= i < s.drop_first().len() && s.drop_first()[i].name@ == n;
                assert(s[i + 1].name@ == n);
            }
            if has_name(s, n) {
                let i = choose|i: int| 0 <= i < s.len() && s[i].name@ == n;
                assert(s.drop_first()[i - 1].name@ == n);
            }
            match find_entry(s.drop_first(), n) {
                Some(e) => {
                    let i = choose|i: int|
                        0 <= i < s.drop_first().len() && s.drop_first()[i] == e;
                    assert(s[i + 1] == e);
                },
                None => {},
            }
        }
    }
}

/// Whether the scan produced exactly this entry.
pub open spec fn scan_produced(results: Seq<Result<ToolEntry, String>>, e: ToolEntry) -> bool {
    exists|k: int| 0 <= k < results.len() && results[k] == Ok::<ToolEntry, String>(e)
}

/// What the scan produced up to `t` it still produced at `t + 1`.
proof fn lemma_scan_produced_extend(
    all: Seq<Result<ToolEntry, String>>,
    t: int,
    e: ToolEntry,
)
    requires
        0 <= t < all.len(),
        scan_produced(all.take(t), e),
    ensures
        scan_produced(all.take(t + 1), e),
{
    let k = choose|k: int|
        0 <= k < all.take(t).len() && all.take(t)[k] == Ok::<ToolEntry, String>(e);
    assert(all.take(t + 1)[k] == Ok::<ToolEntry, String>(e));
}

/// The live name→capability mapping, replaced wholesale on each rescan.
#[derive(Debug)]
pub struct ToolRegistry {
    entries: Vec<ToolEntry>,
}

impl View for ToolRegistry {
    type V = Seq<ToolEntry>;

    closed spec fn view(&self) -> Seq<ToolEntry> {
        self.entries@
    }
}

impl ToolRegistry {
    /// No two entries share a name.
    pub open spec fn wf(&self) -> bool {
        forall|i: int, j: int|
            0 <= i < j < self@.len() ==> (#[trigger] self@[i]).name@ != (#[trigger] self@[j]).name@
    }

    /// An empty registry.
    pub fn new() -> (r: ToolRegistry)
        ensures
            r.wf(),
            r@ == Seq::<ToolEntry>::empty(),
    {
        let r = ToolRegistry { entries: Vec::new() };
        proof {
            assert(r@ =~= Seq::<ToolEntry>::empty());
        }
        r
    }

    /// Replaces the whole mapping with the outcome of one directory scan:
    /// every module that loaded is registered (under its name; when a name
    /// collides, one of its bearers is registered), every module that
    /// failed to load is skipped, and nothing else enters the mapping.
    pub fn rescan(results: Vec<Result<ToolEntry, String>>) -> (r: ToolRegistry)
        ensures
            r.wf(),
            forall|k: int|
                0 <= k < results@.len() && (#[trigger] results@[k]) is Ok ==> has_name(
                    r@,
                    results@[k]->Ok_0.name@,
                ),
            forall|i: int| 0 <= i < r@.len() ==> scan_produced(results@, #[trigger] r@[i]),
    {
        let mut entries: Vec<ToolEntry> = Vec::new();
        let mut rest = results;
        let ghost all = rest@;
        let ghost mut taken: int = 0;
        while rest.len() > 0
            invariant
                0 <= taken,
                taken + rest@.len() == all.len(),
                rest@ =~= all.skip(taken),
                forall|i: int, j: int|
                    0 <= i < j < entries@.len() ==> (#[trigger] entries@[i]).name@ != (
                    #[trigger] entries@[j]).name@,
                forall|k: int|
                    0 <= k < taken && (#[trigger] all[k]) is Ok ==> has_name(
                        entries@,
                        all[k]->Ok_0.name@,
                    ),
                forall|i: int|
                    0 <= i < entries@.len() ==> scan_produced(all.take(taken), #[trigger] entries@[i]),
            decreases rest@.len(),
        {
            proof {
                assert(rest@[0] == all[taken]);
            }
            let outcome = rest.remove(0);
            match outcome {
                Ok(entry) => {
                    let present = Self::contains_name(&entries, &entry.name);
                    if !present {
                        let ghost em = entry;
                        let ghost pre = entries@;
                        entries.push(entry);
                        proof {
                            assert(entries@ =~= pre.push(em));
                            assert(entries@[entries@.len() - 1] == em);
                            assert(all.take(taken + 1)[taken] == Ok::<ToolEntry, String>(em));
                            assert(scan_produced(all.take(taken + 1), em));
                            assert forall|i: int|
                                0 <= i < entries@.len() implies scan_produced(
                                all.take(taken + 1),
                                #[trigger] entries@[i],
                            ) by {
                                if i < pre.len() {
                                    assert(entries@[i] == pre[i]);
                                    lemma_scan_produced_extend(all, taken, pre[i]);
                                }
                            }
                            assert forall|k: int|
                                0 <= k < taken + 1 && (#[trigger] all[k]) is Ok implies
                                has_name(entries@, all[k]->Ok_0.name@) by {
                                if k < taken {
                                    assert(has_name(pre, all[k]->Ok_0.name@));
                                    let i = choose|i: int|
                                        0 <= i < pre.len() && pre[i].name@ == all[k]->Ok_0.name@;
                                    assert(entries@[i].name@ == all[k]->Ok_0.name@);
                                } else {
                                    assert(entries@[entries@.len() - 1].name@ == em.name@);
                                }
                            }
                        }
                    } else {
                        proof {
                            assert forall|k: int|
                                0 <= k < taken + 1 && (#[trigger] all[k]) is Ok implies
                                has_name(entries@, all[k]->Ok_0.name@) by {}
                            assert forall|i: int|
                                0 <= i < entries@.len() implies scan_produced(
                                all.take(taken + 1),
                                #[trigger] entries@[i],
                            ) by {
                                lemma_scan_produced_extend(all, taken, entries@[i]);
                            }
                        }
                    }
                },
                Err(_detail) => {
                    proof {
                        assert forall|i: int|
                            0 <= i < entries@.len() implies scan_produced(
                            all.take(taken + 1),
                            #[trigger] entries@[i],
                        ) by {
                            lemma_scan_produced_extend(all, taken, entries@[i]);
                        }
                    }
                },
            }
            proof {
                taken = taken + 1;
            }
        }
        let ghost entseq = entries@;
        let r = ToolRegistry { entries };
        proof {
            assert(taken == all.len());
            assert(r@ == entseq);
            assert(all.len() == results@.len());
            assert(all.take(taken) =~= results@);
        }
        r
    }

    /// Whether an entry with this name is already present.
    fn contains_name(entries: &Vec<ToolEntry>, name: &String) -> (b: bool)
        ensures
            b == has_name(entries@, name@),
    {
        let mut i: usize = 0;
        while i < entries.len()
            invariant
                i <= entries@.len(),
                forall|j: int| 0 <= j < i ==> (#[trigger] entries@[j]).name@ != name@,
            decreases entries@.len() - i,
        {
            let hit = entries[i].name.eq(name);
            if hit {
                proof {
                    assert(entries@[i as int].name@ == name@);
                }
                return true;
            }
            i = i + 1;
        }
        false
    }

    /// Looks a tool up by name: the first entry of that name when one is
    /// registered, nothing otherwise.
    pub fn get_tool<'a>(&'a self, name: &String) -> (r: Option<&'a ToolEntry>)
        ensures
            match r {
                Some(e) => find_entry(self@, name@) == Some(*e) && e.name@ == name@,
                None => find_entry(self@, name@) is None,
            },
    {
        let mut i: usize = 0;
        proof {
            assert(self@.skip(0) =~= self@);
        }
        while i < self.entries.len()
            invariant
                i <= self@.len(),
                find_entry(self@, name@) == find_entry(self@.skip(i as int), name@),
            decreases self@.len() - i,
        {
            proof {
                assert(self@.skip(i as int)[0] == self@[i as int]);
                assert(self@.skip(i as int).drop_first() =~= self@.skip(i + 1));
            }
            let hit = self.entries[i].name.eq(name);
            if hit {
                proof {
                    assert(self@[i as int].name@ == name@);
                }
                return Some(&self.entries[i]);
            }
            i = i + 1;
        }
        proof {
            assert(self@.skip(self@.len() as int) =~= Seq::<ToolEntry>::empty());
        }
        None
    }

    /// The wire-visible specs of every registered tool, for inclusion in
    /// outgoing chat requests.
    pub fn tools_specs(&self) -> (r: Vec<Tool>)
        ensures
            r@.len() == self@.len(),
            forall|i: int|
                0 <= i < self@.len() ==> (#[trigger] r.deep_view()[i]).type_ == "function"@
                    && r.deep_view()[i].function.name == self@[i].name@
                    && r.deep_view()[i].function.description == Some(self@[i].description@)
                    && r.deep_view()[i].function.parameters == self@[i].parameters.deep_view(),
    {
        let mut out: Vec<Tool> = Vec::new();
        let mut i: usize = 0;
        while i < self.entries.len()
            invariant
                i <= self@.len(),
                out@.len() == i,
                forall|j: int|
                    0 <= j < i ==> (#[trigger] out.deep_view()[j]).type_ == "function"@
                        && out.deep_view()[j].function.name == self@[j].name@
                        && out.deep_view()[j].function.description == Some(self@[j].description@)
                        && out.deep_view()[j].function.parameters == self@[j].parameters.deep_view(),
            decreases self@.len() - i,
        {
            let e = &self.entries[i];
            let t = Tool {
                type_: "function".to_owned(),
                function: FunctionSpec {
                    name: e.name.clone(),
                    description: Some(e.description.clone()),
                    parameters: clone_json(&e.parameters),
                },
            };
            let ghost tm = t;
            let ghost pre = out;
            out.push(t);
            proof {
                crate::lemma_deep_view_push(pre, out, tm);
            }
            i = i + 1;
        }
        out
    }

    /// The tool specs exactly as an outgoing chat request carries them:
    /// the field is omitted entirely when no tool is registered, else it
    /// lists every registered spec.
    pub fn tools_for_request(&self) -> (r: Option<Vec<Tool>>)
        ensures
            r is None <==> self@.len() == 0,
            r matches Some(v) ==> (v@.len() == self@.len() && forall|i: int|
                0 <= i < self@.len() ==> (#[trigger] v.deep_view()[i]).type_ == "function"@
                    && v.deep_view()[i].function.name == self@[i].name@
                    && v.deep_view()[i].function.description == Some(self@[i].description@)
                    && v.deep_view()[i].function.parameters == self@[i].parameters.deep_view()),
    {
        let specs = self.tools_specs();
        if specs.len() == 0 {
            None
        } else {
            Some(specs)
        }
    }
}

} // verus!
