//! The tool and prompt registry, and dispatch.
//!
//! The registry is a routing table built once at startup and immutable
//! afterwards: each entry pairs an operation name with what to run for it.
//! Dispatch looks the name up, decodes the caller's parameter object
//! against the schema of the matched operation, and plans the backend
//! call; an unknown name or a schema violation fails the call before any
//! backend work is attempted.

use vstd::prelude::*;
use crate::error::ErrorModel;
use crate::handler::{CallModel, info_call, list_call};
use crate::params::ParamsModel;
use crate::request::{
    info_decode_detail, info_decode_ok, info_decoded, list_decode_detail, list_decode_ok,
    list_decoded,
};

verus! {

/// Which registered tool an entry runs: one of the two backup operations.
#[derive(Clone, Copy, PartialEq, Eq, Structural, Debug)]
pub enum ToolId {
    GetBackupInfo,
    ListBackups,
}

/// The model of a [`ToolEntry`].
pub struct ToolEntryModel {
    pub name: Seq<char>,
    pub tool: ToolId,
}

/// One row of the tool table: an operation name and the tool it runs.
#[derive(Debug)]
pub struct ToolEntry {
    pub name: String,
    pub tool: ToolId,
}

impl View for ToolEntry {
    type V = ToolEntryModel;

    open spec fn view(&self) -> ToolEntryModel {
        ToolEntryModel { name: self.name@, tool: self.tool }
    }
}

/// The first tool registered under `name`, front to back.
pub open spec fn spec_find_tool(entries: Seq<ToolEntryModel>, name: Seq<char>) -> Option<ToolId>
    decreases entries.len(),
{
    if entries.len() == 0 {
        None
    } else if entries[0].name == name {
        Some(entries[0].tool)
    } else {
        spec_find_tool(entries.drop_first(), name)
    }
}

/// The lookup misses exactly when no entry carries the name.
pub proof fn lemma_find_tool_none(entries: Seq<ToolEntryModel>, name: Seq<char>)
    ensures
        spec_find_tool(entries, name) is None <==> (forall|i: int|
            0 <= i < entries.len() ==> entries[i].name != name),
    decreases entries.len(),
{
    if entries.len() > 0 {
        lemma_find_tool_none(entries.drop_first(), name);
        assert(forall|i: int|
            1 <= i < entries.len() ==> entries[i] == entries.drop_first()[i - 1]);
    }
}

/// The table of callable tools.
#[derive(Debug)]
pub struct ToolRouter {
    entries: Vec<ToolEntry>,
}

impl View for ToolRouter {
    type V = Seq<ToolEntryModel>;

    closed spec fn view(&self) -> Seq<ToolEntryModel> {
        self.entries@.map_values(|e: ToolEntry| e@)
    }
}

impl ToolRouter {
    /// No two rows carry the same name.
    pub open spec fn wf(&self) -> bool {
        forall|i: int, j: int|
            0 <= i < j < self@.len() ==> self@[i].name != self@[j].name
    }

    /// An empty table.
    pub fn new() -> (r: ToolRouter)
        ensures
            r@ == Seq::<ToolEntryModel>::empty(),
            r.wf(),
    {
        ToolRouter { entries: Vec::new() }
    }

    /// Adds a row. Registering a name twice in one process lifetime is a
    /// startup-time misconfiguration, which the precondition rules out.
    pub fn register(&mut self, name: String, tool: ToolId)
        requires
            old(self).wf(),
            spec_find_tool(old(self)@, name@) is None,
        ensures
            final(self)@ == old(self)@.push(ToolEntryModel { name: name@, tool }),
            final(self).wf(),
    {
        proof {
            lemma_find_tool_none(old(self)@, name@);
        }
        self.entries.push(ToolEntry { name, tool });
        proof {
            assert(self@ =~= old(self)@.push(ToolEntryModel { name: name@, tool }));
        }
    }

    /// Looks a name up in the table.
    pub fn find(&self, name: &String) -> (r: Option<ToolId>)
        ensures
            r == spec_find_tool(self@, name@),
    {
        let mut i: usize = 0;
        proof {
            assert(self@.skip(0) =~= self@);
        }
        while i < self.entries.len()
            invariant
                i <= self.entries.len(),
                spec_find_tool(self@, name@) == spec_find_tool(
                    self@.skip(i as int),
                    name@,
                ),
            decreases self.entries.len() - i,
        {
            if self.entries[i].name == *name {
                proof {
                    assert(self@.skip(i as int)[0] == self@[i as int]);
                }
                return Some(self.entries[i].tool);
            }
            proof {
                assert(self@.skip(i as int)[0] == self@[i as int]);
                assert(self@.skip(i as int).drop_first() =~= self@.skip(i as int + 1));
            }
            i = i + 1;
        }
        None
    }
}

/// The model of a [`PromptEntry`].
pub struct PromptEntryModel {
    pub name: Seq<char>,
    pub text: Seq<char>,
}

/// One row of the prompt table: a prompt name and its templated text.
#[derive(Debug)]
pub struct PromptEntry {
    pub name: String,
    pub text: String,
}

impl View for PromptEntry {
    type V = PromptEntryModel;

    open spec fn view(&self) -> PromptEntryModel {
        PromptEntryModel { name: self.name@, text: self.text@ }
    }
}

/// The text of the first prompt registered under `name`, front to back.
pub open spec fn spec_find_prompt(entries: Seq<PromptEntryModel>, name: Seq<char>) -> Option<
    Seq<char>,
>
    decreases entries.len(),
{
    if entries.len() == 0 {
        None
    } else if entries[0].name == name {
        Some(entries[0].text)
    } else {
        spec_find_prompt(entries.drop_first(), name)
    }
}

/// The table of prompts, served through the same dispatch contract as the
/// tools.
#[derive(Debug)]
pub struct PromptRouter {
    entries: Vec<PromptEntry>,
}

impl View for PromptRouter {
    type V = Seq<PromptEntryModel>;

    closed spec fn view(&self) -> Seq<PromptEntryModel> {
        self.entries@.map_values(|e: PromptEntry| e@)
    }
}

impl PromptRouter {
    /// An empty table.
    pub fn new() -> (r: PromptRouter)
        ensures
            r@ == Seq::<PromptEntryModel>::empty(),
    {
        PromptRouter { entries: Vec::new() }
    }

    /// Looks a name up and returns its prompt text.
    pub fn find(&self, name: &String) -> (r: Option<String>)
        ensures
            match r {
                Some(t) => spec_find_prompt(self@, name@) == Some(t@),
                None => spec_find_prompt(self@, name@) is None,
            },
    {
        let mut i: usize = 0;
        proof {
            assert(self@.skip(0) =~= self@);
        }
        while i < self.entries.len()
            invariant
                i <= self.entries.len(),
                spec_find_prompt(self@, name@) == spec_find_prompt(
                    self@.skip(i as int),
                    name@,
                ),
            decreases self.entries.len() - i,
        {
            if self.entries[i].name == *name {
                proof {
                    assert(self@.skip(i as int)[0] == self@[i as int]);
                }
                return Some(self.entries[i].text.clone());
            }
            proof {
                assert(self@.skip(i as int)[0] == self@[i as int]);
                assert(self@.skip(i as int).drop_first() =~= self@.skip(i as int + 1));
            }
            i = i + 1;
        }
        None
    }
}

/// What dispatch decides, as a function of the tool table, the requested
/// name and the parameter object: either the exact backend call to make,
/// or the error that ends the call with no backend work attempted.
pub open spec fn spec_route(
    entries: Seq<ToolEntryModel>,
    name: Seq<char>,
    p: ParamsModel,
) -> Result<CallModel, ErrorModel> {
    match spec_find_tool(entries, name) {
        None => Err(ErrorModel::ToolNotFound { name }),
        Some(ToolId::GetBackupInfo) => if info_decode_ok(p) {
            Ok(info_call(info_decoded(p)))
        } else {
            Err(ErrorModel::InvalidParameters { detail: info_decode_detail(p) })
        },
        Some(ToolId::ListBackups) => if list_decode_ok(p) {
            Ok(list_call(list_decoded(p)))
        } else {
            Err(ErrorModel::InvalidParameters { detail: list_decode_detail(p) })
        },
    }
}

} // verus!
