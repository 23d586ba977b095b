//! Project hooks: executables under `.peleka/hooks/` run before a deployment,
//! after it succeeds, or when it fails, with the deployment described in
//! environment variables.
use crate::strmap::StrMap;
use crate::text::{join_path, own, path_join};
use crate::config::{Config, ServerConfig};
use crate::runtime::types::runtime_name;
use crate::types::image_ref::display_image_ref;
use crate::types::ServiceName;
use vstd::prelude::*;

verus! {

/// When a hook runs.
#[derive(Debug, Clone, Copy, PartialEq, Eq, Structural)]
pub enum HookPoint {
    /// Before the deployment; its failure aborts the deployment.
    PreDeploy,
    /// After a successful deployment; its failure is only reported.
    PostDeploy,
    /// After a failed deployment; its failure is only reported.
    OnError,
}

/// The file name of each hook.
pub open spec fn hook_filename(p: HookPoint) -> Seq<char> {
    match p {
        HookPoint::PreDeploy => "pre-deploy"@,
        HookPoint::PostDeploy => "post-deploy"@,
        HookPoint::OnError => "on-error"@,
    }
}

impl HookPoint {
    /// The hook's file name.
    pub fn filename(&self) -> (r: &'static str)
        ensures
            r@ == hook_filename(*self),
    {
        match self {
            HookPoint::PreDeploy => "pre-deploy",
            HookPoint::PostDeploy => "post-deploy",
            HookPoint::OnError => "on-error",
        }
    }

    /// Whether a failure of this hook aborts the deployment: only before it.
    pub fn is_fatal(&self) -> (r: bool)
        ensures
            r == (*self == HookPoint::PreDeploy),
    {
        match self {
            HookPoint::PreDeploy => true,
            _ => false,
        }
    }
}

/// What a hook is told about the deployment.
#[derive(Debug, Clone)]
pub struct HookContext {
    pub service: ServiceName,
    pub image: String,
    pub server: String,
    pub runtime: String,
    pub previous_version: Option<String>,
}

impl HookContext {
    /// What hooks are told about a deployment of `config` to `server`: the
    /// service, the image, the server's host, and the runtime when the server
    /// sets one (empty when it is detected); no previous version is known.
    pub fn for_server(config: &Config, server: &ServerConfig) -> (r: Self)
        ensures
            r.service@ == config.service@,
            r.image@ == display_image_ref(config.image@),
            r.server@ == server.host@,
            r.runtime@ == match server.runtime {
                Some(t) => runtime_name(t),
                None => Seq::empty(),
            },
            r.previous_version is None,
    {
        HookContext {
            service: config.service.clone(),
            image: config.image.to_string(),
            server: server.host.clone(),
            runtime: match server.runtime {
                Some(t) => t.to_string(),
                None => String::new(),
            },
            previous_version: None,
        }
    }

    /// The environment variables the hook runs with: `PELEKA_SERVICE`,
    /// `PELEKA_IMAGE`, `PELEKA_SERVER`, `PELEKA_RUNTIME`, and
    /// `PELEKA_PREVIOUS_VERSION` when there is a previous version.
    pub fn to_env(&self) -> (r: StrMap<String>)
        ensures
            r@.dom() == if self.previous_version is Some {
                set!["PELEKA_SERVICE"@, "PELEKA_IMAGE"@, "PELEKA_SERVER"@, "PELEKA_RUNTIME"@, "PELEKA_PREVIOUS_VERSION"@]
            } else {
                set!["PELEKA_SERVICE"@, "PELEKA_IMAGE"@, "PELEKA_SERVER"@, "PELEKA_RUNTIME"@]
            },
            r@["PELEKA_SERVICE"@]@ == self.service@,
            r@["PELEKA_IMAGE"@] == self.image,
            r@["PELEKA_SERVER"@] == self.server,
            r@["PELEKA_RUNTIME"@] == self.runtime,
            self.previous_version matches Some(v) ==> r@["PELEKA_PREVIOUS_VERSION"@] == v,
    {
        proof {
            reveal_strlit("PELEKA_SERVICE");
            reveal_strlit("PELEKA_IMAGE");
            reveal_strlit("PELEKA_SERVER");
            reveal_strlit("PELEKA_RUNTIME");
            reveal_strlit("PELEKA_PREVIOUS_VERSION");
            assert("PELEKA_SERVICE"@[8] != "PELEKA_SERVER"@[8] || "PELEKA_SERVICE"@.len() != "PELEKA_SERVER"@.len());
            assert("PELEKA_SERVICE"@[7] != "PELEKA_IMAGE"@[7]);
            assert("PELEKA_SERVICE"@[7] != "PELEKA_RUNTIME"@[7]);
            assert("PELEKA_SERVER"@[7] != "PELEKA_IMAGE"@[7]);
            assert("PELEKA_SERVER"@[7] != "PELEKA_RUNTIME"@[7]);
            assert("PELEKA_IMAGE"@[7] != "PELEKA_RUNTIME"@[7]);
            assert("PELEKA_PREVIOUS_VERSION"@[7] != "PELEKA_SERVICE"@[7]);
            assert("PELEKA_PREVIOUS_VERSION"@[7] != "PELEKA_SERVER"@[7]);
            assert("PELEKA_PREVIOUS_VERSION"@[7] != "PELEKA_IMAGE"@[7]);
            assert("PELEKA_PREVIOUS_VERSION"@[7] != "PELEKA_RUNTIME"@[7]);
        }
        let mut env: StrMap<String> = StrMap::new();
        env.insert(own("PELEKA_SERVICE"), self.service.to_string());
        env.insert(own("PELEKA_IMAGE"), self.image.clone());
        env.insert(own("PELEKA_SERVER"), self.server.clone());
        env.insert(own("PELEKA_RUNTIME"), self.runtime.clone());
        match &self.previous_version {
            Some(prev) => {
                env.insert(own("PELEKA_PREVIOUS_VERSION"), prev.clone());
            },
            None => {},
        }
        assert(env@.dom() =~= if self.previous_version is Some {
            set!["PELEKA_SERVICE"@, "PELEKA_IMAGE"@, "PELEKA_SERVER"@, "PELEKA_RUNTIME"@, "PELEKA_PREVIOUS_VERSION"@]
        } else {
            set!["PELEKA_SERVICE"@, "PELEKA_IMAGE"@, "PELEKA_SERVER"@, "PELEKA_RUNTIME"@]
        });
        env
    }
}

/// How a hook ran.
#[derive(Debug)]
pub struct HookResult {
    pub success: bool,
    /// The exit code, when the hook exited rather than being killed.
    pub exit_code: Option<i32>,
    pub stdout: String,
    pub stderr: String,
}

impl HookResult {
    /// A hook that could not be started: a failure, with the reason as its error
    /// output.
    pub fn not_started(reason: String) -> (r: Self)
        ensures
            !r.success,
            r.exit_code is None,
            r.stdout@.len() == 0,
            r.stderr@ == reason@,
    {
        HookResult { success: false, exit_code: None, stdout: String::new(), stderr: reason }
    }
}

/// Whether `path` names a regular file (`Path::is_file`: following links,
/// false where the file cannot be examined). What is on disk decides.
#[verifier::external_body]
fn path_is_file(path: &str) -> (r: bool) {
    std::path::Path::new(path).is_file()
}

/// Finds hooks in a project directory.
#[derive(Debug)]
pub struct HookRunner {
    hooks_dir: String,
}

impl HookRunner {
    /// The hooks directory: `<project_dir>/.peleka/hooks`.
    pub closed spec fn spec_hooks_dir(&self) -> Seq<char> {
        self.hooks_dir@
    }

    /// A runner for the hooks of the project in `project_dir`.
    pub fn new(project_dir: &str) -> (r: Self)
        ensures
            r.spec_hooks_dir() == join_path(join_path(project_dir@, ".peleka"@), "hooks"@),
    {
        let p = path_join(project_dir, ".peleka");
        HookRunner { hooks_dir: path_join(p.as_str(), "hooks") }
    }

    /// The path of the hook run at `point`.
    pub fn hook_path(&self, point: HookPoint) -> (r: String)
        ensures
            r@ == join_path(self.spec_hooks_dir(), hook_filename(point)),
    {
        path_join(self.hooks_dir.as_str(), point.filename())
    }

    /// Whether the hook for `point` exists as a file.
    pub fn hook_exists(&self, point: HookPoint) -> (r: bool) {
        let p = self.hook_path(point);
        path_is_file(p.as_str())
    }
}

} // verus!
