//! The project manager: an invocation together with its resolved project.

use vstd::prelude::*;
use crate::cli::{Cli, Command, ProjectType};
use crate::context::{ResolveError, WorkingContext};
use crate::resolve::{infer, lemma_root_within_scan, resolve_spec, validate, Validation};

verus! {

/// Settings of the tool; none are defined yet.
pub struct ProjectManagerConfig {}

/// An invocation, the context it runs in, and the project it resolved to.
pub struct ProjectManager {
    pub cli: Cli,
    pub context: WorkingContext,
    /// The components of the project root's path.
    pub project_root: Vec<String>,
    pub config: ProjectManagerConfig,
}

/// The first `len` components of `path`.
pub fn path_prefix(path: &Vec<String>, len: usize) -> (r: Vec<String>)
    requires
        len <= path@.len(),
    ensures
        r@ == path@.subrange(0, len as int),
{
    let mut r: Vec<String> = Vec::new();
    let mut i: usize = 0;
    while i < len
        invariant
            0 <= i <= len <= path@.len(),
            r@ == path@.subrange(0, i as int),
        decreases len - i,
    {
        r.push(path[i].clone());
        i = i + 1;
        assert(r@ =~= path@.subrange(0, i as int));
    }
    r
}

impl ProjectManager {
    /// The outcome that `root_and_type` owes for this manager's invocation.
    pub open spec fn expected(&self) -> Result<(ProjectType, usize), ResolveError> {
        resolve_spec(&self.context, self.cli.project_type)
    }

    /// Builds the manager for `cli` in `context` and resolves its project.
    pub fn init(cli: Cli, context: WorkingContext) -> (r: Result<ProjectManager, ResolveError>)
        requires
            context.wf(),
        ensures
            match resolve_spec(&context, cli.project_type) {
                Ok((t, k)) => r matches Ok(pm) && pm.cli.project_type == Some(t) && pm.context == context
                    && pm.project_root@ == context.ancestor(k as int)
                    && pm.cli.command == Some(match cli.command {
                    Some(c) => c,
                    None => Command::Run,
                }),
                Err(e) => r == Err::<ProjectManager, ResolveError>(e),
            },
    {
        let root = context.work_dir.clone();
        let mut pm = ProjectManager {
            cli: Cli::init(cli),
            context,
            project_root: root,
            config: Self::load_config(),
        };
        match pm.detect_project() {
            Ok(()) => Ok(pm),
            Err(e) => Err(e),
        }
    }

    /// The tool's settings.
    pub fn load_config() -> (r: ProjectManagerConfig) {
        ProjectManagerConfig {}
    }

    /// Resolves the project, then the target file.
    pub fn detect_project(&mut self) -> (r: Result<(), ResolveError>)
        requires
            old(self).context.wf(),
        ensures
            final(self).context == old(self).context,
            final(self).cli.command == old(self).cli.command,
            match old(self).expected() {
                Ok((t, k)) => r is Ok && final(self).cli.project_type == Some(t)
                    && final(self).project_root@ == old(self).context.ancestor(k as int),
                Err(e) => r == Err::<(), ResolveError>(e),
            },
    {
        self.root_and_type()?;
        self.target_file()
    }

    /// Sets the project type and root: an asserted type is checked and
    /// kept, else the type is inferred.
    pub fn root_and_type(&mut self) -> (r: Result<(), ResolveError>)
        requires
            old(self).context.wf(),
        ensures
            final(self).context == old(self).context,
            final(self).cli.command == old(self).cli.command,
            match old(self).expected() {
                Ok((t, k)) => r is Ok && final(self).cli.project_type == Some(t)
                    && final(self).project_root@ == old(self).context.ancestor(k as int),
                Err(e) => r == Err::<(), ResolveError>(e) && *final(self) == *old(self),
            },
    {
        proof {
            lemma_root_within_scan(&self.context, self.cli.project_type);
        }
        let found = match self.cli.project_type {
            Some(t) => match validate(&self.context, t) {
                Validation::Found(k) => (t, k),
                Validation::Anywhere => (t, 0),
                Validation::Rejected(ResolveError::TypeMismatch(_)) => {
                    return Err(self.missed_project());
                },
                Validation::Rejected(e) => {
                    return Err(e);
                },
            },
            None => infer(&self.context)?,
        };
        let (t, k) = found;
        let n = self.context.work_dir.len();
        self.project_root = path_prefix(&self.context.work_dir, n - k);
        self.cli.project_type = Some(t);
        Ok(())
    }

    /// The error for an asserted type that does not fit the project.
    pub fn missed_project(&self) -> (r: ResolveError)
        requires
            self.cli.project_type is Some,
        ensures
            r == ResolveError::AssertedTypeIncorrect(self.cli.project_type.unwrap()),
    {
        match self.cli.project_type {
            Some(t) => ResolveError::AssertedTypeIncorrect(t),
            None => ResolveError::Indeterminate,
        }
    }

    /// The nearest level, from the working directory up, that holds an
    /// entry named `target`.
    pub fn lookup(&self, target: &str) -> (r: Result<Option<usize>, ResolveError>)
        ensures
            r == self.context.scan(target@),
    {
        self.context.lookup(target)
    }

    /// Settles the target file; no rule needs one yet.
    pub fn target_file(&mut self) -> (r: Result<(), ResolveError>)
        ensures
            r is Ok,
            *final(self) == *old(self),
    {
        Ok(())
    }
}

} // verus!
