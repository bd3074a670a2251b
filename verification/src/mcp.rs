//! Descriptions of Model Context Protocol servers.

use vstd::prelude::*;
use crate::assoc::{entry_views, put, put_entry, Entries};
use crate::text::texts;

verus! {

/// A server: the command that starts it, the command's arguments, and the
/// environment that it is started in, as a list of entries.
#[derive(Debug, Clone, PartialEq)]
pub struct McpServer {
    pub name: String,
    pub command: String,
    pub args: Vec<String>,
    pub env: Vec<(String, String)>,
}

/// The mathematical value of a [`McpServer`].
pub struct McpServerView {
    pub name: Seq<char>,
    pub command: Seq<char>,
    pub args: Seq<Seq<char>>,
    pub env: Entries<Seq<char>>,
}

impl View for McpServer {
    type V = McpServerView;

    open spec fn view(&self) -> McpServerView {
        McpServerView {
            name: self.name@,
            command: self.command@,
            args: texts(self.args@),
            env: entry_views(self.env@),
        }
    }
}

/// The views of a sequence of string slices.
pub open spec fn slice_texts(v: Seq<&str>) -> Seq<Seq<char>> {
    Seq::new(v.len(), |i: int| v[i]@)
}

impl McpServer {
    /// A server without a name and with an empty environment.
    pub fn new(command: &str, args: Vec<&str>) -> (r: Self)
        ensures
            r@ == (McpServerView {
                name: Seq::empty(),
                command: command@,
                args: slice_texts(args@),
                env: Seq::empty(),
            }),
    {
        let mut owned: Vec<String> = Vec::new();
        let mut i: usize = 0;
        while i < args.len()
            invariant
                i <= args.len(),
                owned@.len() == i,
                forall|k: int| 0 <= k < i ==> (#[trigger] owned@[k])@ == args@[k]@,
            decreases args.len() - i,
        {
            owned.push(args[i].to_owned());
            i += 1;
        }
        let r = McpServer {
            name: String::new(),
            command: command.to_owned(),
            args: owned,
            env: Vec::new(),
        };
        assert(texts(r.args@) =~= slice_texts(args@));
        assert(entry_views(r.env@) =~= Seq::<(Seq<char>, Seq<char>)>::empty());
        r
    }

    /// Sets the variable `key` to `value`, in the place of what it was set
    /// to before.
    pub fn with_env(self, key: &str, value: &str) -> (r: Self)
        ensures
            r@ == (McpServerView { env: put(self@.env, key@, value@), ..self@ }),
    {
        let mut server = self;
        put_entry(&mut server.env, key, value.to_owned());
        server
    }
}

/// The servers that the binary is to know.
#[derive(Debug, Clone, PartialEq)]
pub struct McpConfig {
    pub servers: Vec<McpServer>,
}

} // verus!
