use vstd::prelude::*;
use crate::error::ResolveError;

verus! {

/// The language servers this extension can launch.
#[derive(Clone, Copy, Debug, PartialEq, Eq, Structural)]
pub enum Tool {
    SieveLsp,
}

/// The command that starts a language server.
#[derive(Debug)]
pub struct LaunchCommand {
    pub command: String,
    pub args: Vec<String>,
}

pub open spec fn tool_id_spec(tool: Tool) -> Seq<char> {
    match tool {
        Tool::SieveLsp => "sieve_lsp"@,
    }
}

/// The stem shared by the asset, version directory and binary names.
pub open spec fn stem_spec(tool: Tool) -> Seq<char> {
    match tool {
        Tool::SieveLsp => "sieve-lsp"@,
    }
}

/// The repository whose releases carry the server.
pub open spec fn repository_spec(tool: Tool) -> Seq<char> {
    match tool {
        Tool::SieveLsp => "yourusername/sieve-language-server"@,
    }
}

impl Tool {
    /// The tool that the host names `id`; any other identifier is unknown.
    pub fn from_id(id: &str) -> (r: Result<Tool, ResolveError>)
        ensures
            r matches Ok(t) ==> id@ == tool_id_spec(t),
            r is Err <==> id@ != tool_id_spec(Tool::SieveLsp),
            r matches Err(e) ==> e is UnknownTool,
    {
        if String::from_str(id) == String::from_str("sieve_lsp") {
            Ok(Tool::SieveLsp)
        } else {
            Err(ResolveError::UnknownTool)
        }
    }

    pub fn id(&self) -> (r: &'static str)
        ensures
            r@ == tool_id_spec(*self),
    {
        match self {
            Tool::SieveLsp => "sieve_lsp",
        }
    }

    pub fn stem(&self) -> (r: &'static str)
        ensures
            r@ == stem_spec(*self),
    {
        match self {
            Tool::SieveLsp => "sieve-lsp",
        }
    }

    pub fn repository(&self) -> (r: &'static str)
        ensures
            r@ == repository_spec(*self),
    {
        match self {
            Tool::SieveLsp => "yourusername/sieve-language-server",
        }
    }
}

/// The command that starts the server at `binary_path`, speaking the
/// protocol over standard input and output.
pub fn launch_command(binary_path: String) -> (r: LaunchCommand)
    ensures
        r.command == binary_path,
        r.args@.len() == 1,
        r.args@[0]@ == "--stdio"@,
{
    let mut args: Vec<String> = Vec::new();
    args.push(String::from_str("--stdio"));
    LaunchCommand { command: binary_path, args }
}

} // verus!
