//! The daemon invocations the supervisor makes: program, arguments and the
//! keyring secret passed in the environment.

use vstd::prelude::*;

verus! {

/// The daemon's sidecar program.
pub const PROGRAM: &'static str = "defradb";

/// The environment variable that carries the keyring secret.
pub const KEYRING_SECRET_VAR: &'static str = "DEFRA_KEYRING_SECRET";

/// The keyring secret every invocation gets.
pub const KEYRING_SECRET: &'static str = "your-secret-key-here";

/// The only request origin the daemon accepts.
pub const ALLOWED_ORIGIN: &'static str = "http://localhost:1420";

/// The daemon's storage directory.
pub const ROOT_DIR: &'static str = "./.defradb";

/// The definition of the `Note` schema.
pub const SCHEMA_DEFINITION: &'static str = "type Note {\n    title: String\n    content: String\n    workspace: String\n    createdAt: DateTime\n    updatedAt: DateTime\n    authorId: String\n}";

/// One invocation of the daemon's program.
#[derive(Clone, Debug)]
pub enum DaemonCommand {
    /// Run the daemon itself.
    Start,
    /// Create the keyring (the remediation).
    KeyringGenerate,
    /// List the schemas.
    SchemaList,
    /// Add the `Note` schema.
    SchemaAdd,
    /// Ask for the daemon's peer identity.
    PeerInfo,
    /// Replicate the `Note` collection to a peer.
    ReplicatorSet { peer_id: String },
    /// List the replicators.
    ReplicatorGetAll,
}

/// The argument list of an invocation.
pub open spec fn command_args(c: DaemonCommand) -> Seq<Seq<char>> {
    match c {
        DaemonCommand::Start => seq!["start"@, "--allowed-origins"@, ALLOWED_ORIGIN@, "--rootdir"@, ROOT_DIR@],
        DaemonCommand::KeyringGenerate => seq!["keyring"@, "generate"@],
        DaemonCommand::SchemaList => seq!["client"@, "schema"@, "list"@],
        DaemonCommand::SchemaAdd => seq!["client"@, "schema"@, "add"@, SCHEMA_DEFINITION@],
        DaemonCommand::PeerInfo => seq!["client"@, "p2p"@, "info"@],
        DaemonCommand::ReplicatorSet { peer_id } => seq![
            "client"@,
            "p2p"@,
            "replicator"@,
            "set"@,
            "-c"@,
            "Note"@,
            peer_id@,
        ],
        DaemonCommand::ReplicatorGetAll => seq!["client"@, "p2p"@, "replicator"@, "getall"@],
    }
}

pub open spec fn strings_view(v: Seq<String>) -> Seq<Seq<char>> {
    v.map_values(|s: String| s@)
}

fn push_str(v: &mut Vec<String>, s: &str)
    ensures
        strings_view(final(v)@) == strings_view(old(v)@).push(s@),
{
    v.push(String::from_str(s));
    assert(strings_view(final(v)@) =~= strings_view(old(v)@).push(s@));
}

impl DaemonCommand {
    /// The arguments of this invocation, in order.
    pub fn args(&self) -> (r: Vec<String>)
        ensures
            strings_view(r@) == command_args(*self),
    {
        let mut v: Vec<String> = Vec::new();
        proof {
            assert(strings_view(v@) =~= Seq::<Seq<char>>::empty());
        }
        match self {
            DaemonCommand::Start => {
                push_str(&mut v, "start");
                push_str(&mut v, "--allowed-origins");
                push_str(&mut v, ALLOWED_ORIGIN);
                push_str(&mut v, "--rootdir");
                push_str(&mut v, ROOT_DIR);
            },
            DaemonCommand::KeyringGenerate => {
                push_str(&mut v, "keyring");
                push_str(&mut v, "generate");
            },
            DaemonCommand::SchemaList => {
                push_str(&mut v, "client");
                push_str(&mut v, "schema");
                push_str(&mut v, "list");
            },
            DaemonCommand::SchemaAdd => {
                push_str(&mut v, "client");
                push_str(&mut v, "schema");
                push_str(&mut v, "add");
                push_str(&mut v, SCHEMA_DEFINITION);
            },
            DaemonCommand::PeerInfo => {
                push_str(&mut v, "client");
                push_str(&mut v, "p2p");
                push_str(&mut v, "info");
            },
            DaemonCommand::ReplicatorSet { peer_id } => {
                push_str(&mut v, "client");
                push_str(&mut v, "p2p");
                push_str(&mut v, "replicator");
                push_str(&mut v, "set");
                push_str(&mut v, "-c");
                push_str(&mut v, "Note");
                push_str(&mut v, peer_id.as_str());
            },
            DaemonCommand::ReplicatorGetAll => {
                push_str(&mut v, "client");
                push_str(&mut v, "p2p");
                push_str(&mut v, "replicator");
                push_str(&mut v, "getall");
            },
        }
        proof {
            assert(strings_view(v@) =~= command_args(*self));
        }
        v
    }
}

} // verus!
