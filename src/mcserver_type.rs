//! The type of a supervised Minecraft server (vanilla, purpur, ...), which
//! selects how the lines the server prints are interpreted.

use vstd::prelude::*;

verus! {

/// The type of a Minecraft server, and the name of the server it belongs to.
pub struct MCServerType {
    server_type: String,
    parent: String,
}

impl MCServerType {
    /// The name of this server type.
    pub closed spec fn kind(&self) -> Seq<char> {
        self.server_type@
    }

    /// The name of the server this type belongs to.
    pub closed spec fn owner(&self) -> Seq<char> {
        self.parent@
    }

    /// A server type `server_type` for the server named `parent`.
    pub fn new(server_type: &str, parent: &str) -> (r: Self)
        ensures
            r.kind() == server_type@,
            r.owner() == parent@,
    {
        MCServerType { server_type: server_type.to_owned(), parent: parent.to_owned() }
    }

    /// The name of this server type.
    pub fn server_type(&self) -> (r: &String)
        ensures
            r@ == self.kind(),
    {
        &self.server_type
    }

    /// The name of the server this type belongs to.
    pub fn parent(&self) -> (r: &String)
        ensures
            r@ == self.owner(),
    {
        &self.parent
    }
}

} // verus!
