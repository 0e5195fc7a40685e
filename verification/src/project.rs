//! A project's files and folders as plain values.
use vstd::prelude::*;

verus! {

/// A file or a folder of a project, with everything below it.
///
/// The children of a folder stand in the order in which they were listed.
#[derive(Debug)]
pub enum Node {
    File { name: String, data: Vec<u8> },
    Folder { name: String, children: Vec<Node> },
}

impl Node {
    /// The name of this file or folder, without the path that leads to it.
    pub open spec fn spec_name(&self) -> Seq<char> {
        match self {
            Node::File { name, .. } => name@,
            Node::Folder { name, .. } => name@,
        }
    }

    /// The name of this file or folder, without the path that leads to it.
    pub fn name(&self) -> (r: &str)
        ensures
            r@ == self.spec_name(),
    {
        match self {
            Node::File { name, .. } => name.as_str(),
            Node::Folder { name, .. } => name.as_str(),
        }
    }

    /// Whether this is a folder.
    pub fn is_dir(&self) -> (r: bool)
        ensures
            r == (self is Folder),
    {
        match self {
            Node::File { .. } => false,
            Node::Folder { .. } => true,
        }
    }
}

} // verus!
