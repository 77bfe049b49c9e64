use vstd::prelude::*;

verus! {

/// A process's configuration snapshot, immutable once the process is
/// spawned: the sandbox's command line, environment, preopened
/// directories, memory ceiling and the import namespaces the module is
/// allowed to link against.
#[derive(Debug)]
pub struct DefaultProcessConfig {
    /// Command line arguments handed to the sandboxed code.
    pub command_line_arguments: Vec<String>,
    /// Environment variables handed to the sandboxed code.
    pub environment_variables: Vec<(String, String)>,
    /// Directories the sandboxed code may access.
    pub preopened_dirs: Vec<String>,
    /// The largest linear-memory size, in bytes, the sandbox may grow to.
    pub max_memory: usize,
    /// Import namespaces the module is allowed to link against.
    pub allowed_namespaces: Vec<String>,
}

impl DefaultProcessConfig {
    /// The command line arguments of the snapshot.
    pub fn command_line_arguments(&self) -> (r: &Vec<String>)
        ensures
            *r == self.command_line_arguments,
    {
        &self.command_line_arguments
    }

    /// The environment variables of the snapshot.
    pub fn environment_variables(&self) -> (r: &Vec<(String, String)>)
        ensures
            *r == self.environment_variables,
    {
        &self.environment_variables
    }

    /// The preopened directories of the snapshot.
    pub fn preopened_dirs(&self) -> (r: &Vec<String>)
        ensures
            *r == self.preopened_dirs,
    {
        &self.preopened_dirs
    }

    /// The import namespaces the module may link against.
    pub fn allowed_namespaces(&self) -> (r: &Vec<String>)
        ensures
            *r == self.allowed_namespaces,
    {
        &self.allowed_namespaces
    }

    /// The configured linear-memory ceiling in bytes.
    pub fn get_max_memory(&self) -> (r: usize)
        ensures
            r == self.max_memory,
    {
        self.max_memory
    }

    /// Replace the linear-memory ceiling.
    pub fn set_max_memory(&mut self, max_memory: usize)
        ensures
            *final(self) == (DefaultProcessConfig { max_memory, ..*old(self) }),
    {
        self.max_memory = max_memory;
    }
}

impl Default for DefaultProcessConfig {
    /// An unrestricted snapshot: nothing preopened, no arguments, no
    /// environment, no namespace restriction, and the memory ceiling at
    /// the machine's addressing limit.
    fn default() -> (c: Self)
        ensures
            c.command_line_arguments@ == Seq::<String>::empty(),
            c.environment_variables@ == Seq::<(String, String)>::empty(),
            c.preopened_dirs@ == Seq::<String>::empty(),
            c.allowed_namespaces@ == Seq::<String>::empty(),
            c.max_memory == usize::MAX,
    {
        DefaultProcessConfig {
            command_line_arguments: Vec::new(),
            environment_variables: Vec::new(),
            preopened_dirs: Vec::new(),
            max_memory: usize::MAX,
            allowed_namespaces: Vec::new(),
        }
    }
}

} // verus!
