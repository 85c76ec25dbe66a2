//! Built-in MCP servers: a memory store and a camera stub.

use vstd::prelude::*;

verus! {

/// Memories server for storing conversation context.
pub struct MemoriesServer {
    memories: Vec<String>,
}

impl MemoriesServer {
    /// The stored memories, oldest first.
    pub closed spec fn memories_view(&self) -> Seq<String> {
        self.memories@
    }

    /// Create a new memories server.
    pub fn new() -> (r: MemoriesServer)
        ensures
            r.memories_view() == Seq::<String>::empty(),
    {
        MemoriesServer { memories: Vec::new() }
    }

    /// Store a memory.
    pub fn store(&mut self, memory: String)
        ensures
            final(self).memories_view() == old(self).memories_view().push(memory),
    {
        self.memories.push(memory);
    }

    /// Retrieve all memories.
    pub fn retrieve(&self) -> (r: &[String])
        ensures
            r@ == self.memories_view(),
    {
        self.memories.as_slice()
    }

    /// Clear all memories.
    pub fn clear(&mut self)
        ensures
            final(self).memories_view() == Seq::<String>::empty(),
    {
        self.memories.clear();
    }
}

impl Default for MemoriesServer {
    /// Same as `MemoriesServer::new`.
    fn default() -> (r: Self)
        ensures
            r.memories_view() == Seq::<String>::empty(),
    {
        Self::new()
    }
}

/// Camera server for taking pictures.
pub struct CameraServer;

impl CameraServer {
    /// Create a new camera server.
    pub fn new() -> (r: CameraServer) {
        CameraServer
    }

    /// Take a picture; capture is not wired up, so every call reports that.
    pub fn take_picture(&self) -> (r: Result<Vec<u8>, String>)
        ensures
            r matches Err(m) && m@ == "Camera capture not yet implemented"@,
    {
        Err("Camera capture not yet implemented".to_owned())
    }
}

impl Default for CameraServer {
    /// Same as `CameraServer::new`.
    fn default() -> (r: Self) {
        Self::new()
    }
}

} // verus!
