//! The server object: the routing tables, built once at startup, and the
//! dispatch entry points.

use vstd::prelude::*;
use crate::error::{ErrorModel, ToolError};
use crate::handler::{BackendCall, CallModel};
use crate::params::RawParams;
use crate::router::{
    PromptEntryModel, PromptRouter, ToolEntryModel, ToolId, ToolRouter, spec_find_prompt,
    spec_find_tool, spec_route,
};

verus! {

/// The names under which the two operations are registered.
pub open spec fn get_backup_info_name() -> Seq<char> {
    "get_backup_info"@
}

/// The registered name of the backup-listing operation.
pub open spec fn list_backups_name() -> Seq<char> {
    "list_backups"@
}

/// The fixed tool table of this adapter: the two backup operations, each
/// under its fixed name, in registration order.
pub open spec fn catalog_tools() -> Seq<ToolEntryModel> {
    seq![
        ToolEntryModel { name: get_backup_info_name(), tool: ToolId::GetBackupInfo },
        ToolEntryModel { name: list_backups_name(), tool: ToolId::ListBackups },
    ]
}

/// The handler object handed to the hosting protocol server: the tool and
/// prompt tables, constructed once by [`Info::new`] and immutable
/// afterwards, and nothing else — handling a call keeps no state here.
#[derive(Debug)]
pub struct Info {
    tool_router: ToolRouter,
    prompt_router: PromptRouter,
}

impl Info {
    /// The rows of the tool table.
    pub closed spec fn tools(&self) -> Seq<ToolEntryModel> {
        self.tool_router@
    }

    /// The rows of the prompt table.
    pub closed spec fn prompts(&self) -> Seq<PromptEntryModel> {
        self.prompt_router@
    }

    /// The catalog this adapter serves: exactly the two backup operations
    /// as tools, each under its fixed name, and no prompts.
    pub open spec fn catalog(&self) -> bool {
        &&& self.tools() == catalog_tools()
        &&& self.prompts() == Seq::<PromptEntryModel>::empty()
    }

    /// Builds the routing tables: the two backup operations, nothing else.
    pub fn new() -> (r: Info)
        ensures
            r.catalog(),
    {
        let mut tool_router = ToolRouter::new();
        tool_router.register(String::from_str("get_backup_info"), ToolId::GetBackupInfo);
        proof {
            reveal_strlit("get_backup_info");
            reveal_strlit("list_backups");
            assert(get_backup_info_name().len() == 15);
            assert(list_backups_name().len() == 12);
            assert(spec_find_tool(tool_router@, list_backups_name()) is None) by {
                assert(tool_router@.len() == 1);
                assert(tool_router@[0].name == get_backup_info_name());
                assert(tool_router@.drop_first().len() == 0);
                assert(spec_find_tool(tool_router@.drop_first(), list_backups_name()) is None);
            };
        }
        tool_router.register(String::from_str("list_backups"), ToolId::ListBackups);
        let prompt_router = PromptRouter::new();
        let r = Info { tool_router, prompt_router };
        proof {
            assert(r.tools() =~= catalog_tools());
        }
        r
    }

    /// Dispatches a tool call: looks the name up, decodes the parameter
    /// object against the matched operation's schema, and returns the
    /// backend call to perform — or the error that ends the call with no
    /// backend work attempted, exactly as [`spec_route`] says.
    pub fn route(&self, name: &String, params: &RawParams) -> (r: Result<BackendCall, ToolError>)
        ensures
            match r {
                Ok(c) => spec_route(self.tools(), name@, params@) == Ok::<CallModel, ErrorModel>(
                    c@,
                ),
                Err(e) => spec_route(self.tools(), name@, params@) == Err::<
                    CallModel,
                    ErrorModel,
                >(e@),
            },
    {
        match self.tool_router.find(name) {
            None => Err(ToolError::ToolNotFound(name.clone())),
            Some(ToolId::GetBackupInfo) => match crate::request::decode_info_request(params) {
                Ok(q) => Ok(crate::handler::plan_get_backup_info(q)),
                Err(d) => Err(ToolError::InvalidParameters(d)),
            },
            Some(ToolId::ListBackups) => match crate::request::decode_list_backups_request(
                params,
            ) {
                Ok(q) => Ok(crate::handler::plan_list_backups(q)),
                Err(d) => Err(ToolError::InvalidParameters(d)),
            },
        }
    }

    /// Dispatches a prompt call: the prompt's text where the name is
    /// registered, a `ToolNotFound` error where it is not.
    pub fn route_prompt(&self, name: &String) -> (r: Result<String, ToolError>)
        ensures
            match r {
                Ok(t) => spec_find_prompt(self.prompts(), name@) == Some(t@),
                Err(e) => spec_find_prompt(self.prompts(), name@) is None && e@
                    == (ErrorModel::ToolNotFound { name: name@ }),
            },
    {
        match self.prompt_router.find(name) {
            Some(t) => Ok(t),
            None => Err(ToolError::ToolNotFound(name.clone())),
        }
    }

    /// Whether a tool of this name is registered.
    pub fn has_tool(&self, name: &String) -> (r: bool)
        ensures
            r == (spec_find_tool(self.tools(), name@) is Some),
    {
        match self.tool_router.find(name) {
            Some(_) => true,
            None => false,
        }
    }
}

} // verus!
