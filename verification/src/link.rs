//! The link/unlink engine.
//!
//! Linking creates the destination instance directory, writes the two
//! synthesized metadata artifacts into it, and places a directory symlink to
//! the source modpack's content; unlinking removes that one directory tree.
//! The engine is a state machine: it hands out one filesystem action at a
//! time as an [`FsAction`] value and is stepped with the action's outcome as
//! an [`FsEvent`].  The caller performs the raw operations; every decision —
//! the conflict check, the write order, the compensating rollback when the
//! symlink step fails — is made here.
//!
//! The proofs relate a run to a model of the destination root
//! ([`DestModel`]): whatever events come back, a finished run leaves the
//! model in the state its outcome reports, and a failed run leaves no
//! partial directory behind.

use vstd::prelude::*;

use crate::artifacts::{sp_config_text, sp_pack_text, synthesize_config, synthesize_component_pack};
use crate::error::LinkerError;
use crate::instance::{sp_valid_name, valid_name, CurseForgeInstance, DescriptorView};

verus! {

/// The fixed file name of the config artifact inside the instance directory.
pub const CONFIG_FILE_NAME: &'static str = "instance.cfg";

/// The fixed file name of the component-pack artifact.
pub const PACK_FILE_NAME: &'static str = "mmc-pack.json";

/// The name of the symlink pointing at the source modpack's content.
pub const CONTENT_LINK_NAME: &'static str = ".minecraft";

/// Joining a directory path and a child name with the separator.
pub open spec fn sp_join(dir: Seq<char>, child: Seq<char>) -> Seq<char> {
    dir + "/"@ + child
}

/// Joins a directory path and a child name.
pub fn join_path(dir: &str, child: &str) -> (r: String)
    ensures
        r@ == sp_join(dir@, child@),
{
    String::from_str(dir).concat("/").concat(child)
}

/// One filesystem operation the engine asks its caller to perform.
#[derive(Debug, PartialEq, Eq)]
pub enum FsAction {
    /// Report whether this path exists.
    Probe(String),
    /// Create this directory.
    MakeDir(String),
    /// Write this text into this file path, creating or truncating it.
    PutFile(String, String),
    /// Create a directory symlink at the first path pointing at the second.
    MakeLink(String, String),
    /// Remove this directory tree without following symlinks into their
    /// targets.
    RemoveAll(String),
}

/// What the caller reports back about the one action it performed.
#[derive(Debug, PartialEq, Eq)]
pub enum FsEvent {
    /// The probe's answer.
    Probed(bool),
    /// The operation succeeded.
    Succeeded,
    /// The operation failed with the OS error text; `permission_denied`
    /// marks the denial that symlink creation needs privilege for.
    Failed { message: String, permission_denied: bool },
}

/// Where a link run stands.
#[derive(Debug)]
pub enum LinkPhase {
    /// Asking whether the target directory already exists.
    Probing,
    /// Creating the target directory.
    Creating,
    /// Writing the config artifact.
    WritingConfig,
    /// Writing the component-pack artifact.
    WritingPack,
    /// Creating the content symlink.
    Linking,
    /// Removing the partly built target directory before reporting the held
    /// error.
    RollingBack(LinkerError),
    /// Finished; `None` is success.
    Done(Option<LinkerError>),
}

/// One link operation in progress.
pub struct LinkRun {
    /// Where the run stands.
    pub phase: LinkPhase,
    /// The descriptor the run was started for.
    pub descriptor: Ghost<DescriptorView>,
    /// The instance name, a validated path segment.
    pub name: String,
    /// The destination launcher's root directory.
    pub dest_root: String,
    /// The source modpack's content directory the symlink will point at.
    pub source_dir: String,
    /// `dest_root/name`.
    pub target_dir: String,
    /// `target_dir/instance.cfg`.
    pub cfg_path: String,
    /// `target_dir/mmc-pack.json`.
    pub pack_path: String,
    /// `target_dir/.minecraft`.
    pub link_path: String,
    /// The synthesized config text.
    pub cfg_text: String,
    /// The synthesized component-pack document.
    pub pack_text: String,
}

impl LinkRun {
    /// The run's paths and artifacts fit together: every path is derived
    /// from the validated name under the destination root, and the texts are
    /// the synthesized artifacts of the run's descriptor.
    pub open spec fn wf(self) -> bool {
        &&& sp_valid_name(self.name@)
        &&& self.name@ == self.descriptor@.name
        &&& self.target_dir@ == sp_join(self.dest_root@, self.name@)
        &&& self.cfg_path@ == sp_join(self.target_dir@, CONFIG_FILE_NAME@)
        &&& self.pack_path@ == sp_join(self.target_dir@, PACK_FILE_NAME@)
        &&& self.link_path@ == sp_join(self.target_dir@, CONTENT_LINK_NAME@)
        &&& self.cfg_text@ == sp_config_text(self.descriptor@.name)
        &&& self.pack_text@ == sp_pack_text(self.descriptor@)
    }

    /// Which action the run asks for in each phase.
    pub open spec fn sp_action_matches(self, r: Option<FsAction>) -> bool {
        match self.phase {
            LinkPhase::Probing => r matches Some(FsAction::Probe(p)) && p@ == self.target_dir@,
            LinkPhase::Creating => r matches Some(FsAction::MakeDir(p)) && p@ == self.target_dir@,
            LinkPhase::WritingConfig => r matches Some(FsAction::PutFile(p, t)) && p@
                == self.cfg_path@ && t@ == self.cfg_text@,
            LinkPhase::WritingPack => r matches Some(FsAction::PutFile(p, t)) && p@
                == self.pack_path@ && t@ == self.pack_text@,
            LinkPhase::Linking => r matches Some(FsAction::MakeLink(p, t)) && p@
                == self.link_path@ && t@ == self.source_dir@,
            LinkPhase::RollingBack(_) => r matches Some(FsAction::RemoveAll(p)) && p@
                == self.target_dir@,
            LinkPhase::Done(_) => r is None,
        }
    }

    /// The action the caller is to perform next, or nothing once the run is
    /// finished.
    pub fn next_action(&self) -> (r: Option<FsAction>)
        ensures
            self.sp_action_matches(r),
    {
        match &self.phase {
            LinkPhase::Probing => Some(FsAction::Probe(self.target_dir.clone())),
            LinkPhase::Creating => Some(FsAction::MakeDir(self.target_dir.clone())),
            LinkPhase::WritingConfig => Some(
                FsAction::PutFile(self.cfg_path.clone(), self.cfg_text.clone()),
            ),
            LinkPhase::WritingPack => Some(
                FsAction::PutFile(self.pack_path.clone(), self.pack_text.clone()),
            ),
            LinkPhase::Linking => Some(
                FsAction::MakeLink(self.link_path.clone(), self.source_dir.clone()),
            ),
            LinkPhase::RollingBack(_) => Some(FsAction::RemoveAll(self.target_dir.clone())),
            LinkPhase::Done(_) => None,
        }
    }

    /// How a link run advances on an event.  An existing target directory is
    /// a conflict; a failure while writing rolls the directory back; a
    /// symlink denial rolls back and reports `SymlinkPermission`; an event
    /// of the wrong kind for the phase changes nothing.
    pub open spec fn sp_step(self, e: FsEvent) -> LinkRun {
        match self.phase {
            LinkPhase::Probing => match e {
                FsEvent::Probed(b) => if b {
                    LinkRun {
                        phase: LinkPhase::Done(Some(LinkerError::NameConflict)),
                        ..self
                    }
                } else {
                    LinkRun { phase: LinkPhase::Creating, ..self }
                },
                FsEvent::Failed { message, .. } => LinkRun {
                    phase: LinkPhase::Done(Some(LinkerError::Io(message))),
                    ..self
                },
                FsEvent::Succeeded => self,
            },
            LinkPhase::Creating => match e {
                FsEvent::Succeeded => LinkRun { phase: LinkPhase::WritingConfig, ..self },
                FsEvent::Failed { message, .. } => LinkRun {
                    phase: LinkPhase::Done(Some(LinkerError::Io(message))),
                    ..self
                },
                FsEvent::Probed(_) => self,
            },
            LinkPhase::WritingConfig => match e {
                FsEvent::Succeeded => LinkRun { phase: LinkPhase::WritingPack, ..self },
                FsEvent::Failed { message, .. } => LinkRun {
                    phase: LinkPhase::RollingBack(LinkerError::Io(message)),
                    ..self
                },
                FsEvent::Probed(_) => self,
            },
            LinkPhase::WritingPack => match e {
                FsEvent::Succeeded => LinkRun { phase: LinkPhase::Linking, ..self },
                FsEvent::Failed { message, .. } => LinkRun {
                    phase: LinkPhase::RollingBack(LinkerError::Io(message)),
                    ..self
                },
                FsEvent::Probed(_) => self,
            },
            LinkPhase::Linking => match e {
                FsEvent::Succeeded => LinkRun { phase: LinkPhase::Done(None), ..self },
                FsEvent::Failed { message, permission_denied } => LinkRun {
                    phase: LinkPhase::RollingBack(
                        if permission_denied {
                            LinkerError::SymlinkPermission(message)
                        } else {
                            LinkerError::Io(message)
                        },
                    ),
                    ..self
                },
                FsEvent::Probed(_) => self,
            },
            LinkPhase::RollingBack(err) => match e {
                FsEvent::Succeeded => LinkRun { phase: LinkPhase::Done(Some(err)), ..self },
                FsEvent::Failed { message, .. } => LinkRun {
                    phase: LinkPhase::Done(Some(LinkerError::Io(message))),
                    ..self
                },
                FsEvent::Probed(_) => self,
            },
            LinkPhase::Done(_) => self,
        }
    }

    /// Advances the run with the outcome of the action last handed out.
    pub fn step(self, e: FsEvent) -> (r: LinkRun)
        ensures
            r == self.sp_step(e),
    {
        match self.phase {
            LinkPhase::Probing => match e {
                FsEvent::Probed(b) => if b {
                    LinkRun {
                        phase: LinkPhase::Done(Some(LinkerError::NameConflict)),
                        ..self
                    }
                } else {
                    LinkRun { phase: LinkPhase::Creating, ..self }
                },
                FsEvent::Failed { message, .. } => LinkRun {
                    phase: LinkPhase::Done(Some(LinkerError::Io(message))),
                    ..self
                },
                FsEvent::Succeeded => LinkRun { phase: LinkPhase::Probing, ..self },
            },
            LinkPhase::Creating => match e {
                FsEvent::Succeeded => LinkRun { phase: LinkPhase::WritingConfig, ..self },
                FsEvent::Failed { message, .. } => LinkRun {
                    phase: LinkPhase::Done(Some(LinkerError::Io(message))),
                    ..self
                },
                FsEvent::Probed(_) => LinkRun { phase: LinkPhase::Creating, ..self },
            },
            LinkPhase::WritingConfig => match e {
                FsEvent::Succeeded => LinkRun { phase: LinkPhase::WritingPack, ..self },
                FsEvent::Failed { message, .. } => LinkRun {
                    phase: LinkPhase::RollingBack(LinkerError::Io(message)),
                    ..self
                },
                FsEvent::Probed(_) => LinkRun { phase: LinkPhase::WritingConfig, ..self },
            },
            LinkPhase::WritingPack => match e {
                FsEvent::Succeeded => LinkRun { phase: LinkPhase::Linking, ..self },
                FsEvent::Failed { message, .. } => LinkRun {
                    phase: LinkPhase::RollingBack(LinkerError::Io(message)),
                    ..self
                },
                FsEvent::Probed(_) => LinkRun { phase: LinkPhase::WritingPack, ..self },
            },
            LinkPhase::Linking => match e {
                FsEvent::Succeeded => LinkRun { phase: LinkPhase::Done(None), ..self },
                FsEvent::Failed { message, permission_denied } => LinkRun {
                    phase: LinkPhase::RollingBack(
                        if permission_denied {
                            LinkerError::SymlinkPermission(message)
                        } else {
                            LinkerError::Io(message)
                        },
                    ),
                    ..self
                },
                FsEvent::Probed(_) => LinkRun { phase: LinkPhase::Linking, ..self },
            },
            LinkPhase::RollingBack(err) => match e {
                FsEvent::Succeeded => LinkRun { phase: LinkPhase::Done(Some(err)), ..self },
                FsEvent::Failed { message, .. } => LinkRun {
                    phase: LinkPhase::Done(Some(LinkerError::Io(message))),
                    ..self
                },
                FsEvent::Probed(_) => LinkRun { phase: LinkPhase::RollingBack(err), ..self },
            },
            LinkPhase::Done(o) => LinkRun { phase: LinkPhase::Done(o), ..self },
        }
    }

    /// The run's outcome once it is finished.
    pub open spec fn sp_outcome(self) -> Option<Option<LinkerError>> {
        match self.phase {
            LinkPhase::Done(o) => Some(o),
            _ => None,
        }
    }

    /// `None` while the run still asks for actions; then `Ok` on success or
    /// the error the run finished with.
    pub fn outcome(&self) -> (r: Option<Result<(), LinkerError>>)
        ensures
            match r {
                None => self.sp_outcome() is None,
                Some(Ok(())) => self.sp_outcome() == Some(None::<LinkerError>),
                Some(Err(e)) => self.sp_outcome() == Some(Some(e)),
            },
    {
        match &self.phase {
            LinkPhase::Done(None) => Some(Ok(())),
            LinkPhase::Done(Some(e)) => Some(Err(e.clone())),
            _ => None,
        }
    }
}

/// Starts a link run for the descriptor: the destination directory will be
/// `dest_root/<name>` and the symlink will point at `source_dir`.
///
/// Succeeds exactly when the descriptor's name is a valid directory name;
/// nothing is touched until the returned run's actions are performed.
pub fn link(dest_root: &str, source_dir: &str, descriptor: &CurseForgeInstance) -> (r: Result<
    LinkRun,
    LinkerError,
>)
    ensures
        match r {
            Ok(run) => sp_valid_name(descriptor@.name) && run.wf() && run.phase is Probing
                && run.descriptor@ == descriptor@ && run.dest_root@ == dest_root@
                && run.source_dir@ == source_dir@,
            Err(e) => !sp_valid_name(descriptor@.name) && e == LinkerError::InvalidName,
        },
{
    if !valid_name(descriptor.name.as_str()) {
        return Err(LinkerError::InvalidName);
    }
    let target_dir = join_path(dest_root, descriptor.name.as_str());
    let cfg_path = join_path(target_dir.as_str(), CONFIG_FILE_NAME);
    let pack_path = join_path(target_dir.as_str(), PACK_FILE_NAME);
    let link_path = join_path(target_dir.as_str(), CONTENT_LINK_NAME);
    let cfg_text = synthesize_config(descriptor);
    let pack_text = synthesize_component_pack(descriptor);
    Ok(
        LinkRun {
            phase: LinkPhase::Probing,
            descriptor: Ghost(descriptor@),
            name: descriptor.name.clone(),
            dest_root: String::from_str(dest_root),
            source_dir: String::from_str(source_dir),
            target_dir,
            cfg_path,
            pack_path,
            link_path,
            cfg_text,
            pack_text,
        },
    )
}

/// Where an unlink run stands.
#[derive(Debug)]
pub enum UnlinkPhase {
    /// Asking whether the target directory exists.
    Probing,
    /// Removing the target directory tree.
    Removing,
    /// Finished; `None` is success.
    Done(Option<LinkerError>),
}

/// One unlink operation in progress.
pub struct UnlinkRun {
    /// Where the run stands.
    pub phase: UnlinkPhase,
    /// The instance name, a validated path segment.
    pub name: String,
    /// The destination launcher's root directory.
    pub dest_root: String,
    /// `dest_root/name`.
    pub target_dir: String,
}

impl UnlinkRun {
    /// The run's path is derived from the validated name under the
    /// destination root.
    pub open spec fn wf(self) -> bool {
        &&& sp_valid_name(self.name@)
        &&& self.target_dir@ == sp_join(self.dest_root@, self.name@)
    }

    /// Which action the run asks for in each phase.
    pub open spec fn sp_action_matches(self, r: Option<FsAction>) -> bool {
        match self.phase {
            UnlinkPhase::Probing => r matches Some(FsAction::Probe(p)) && p@ == self.target_dir@,
            UnlinkPhase::Removing => r matches Some(FsAction::RemoveAll(p)) && p@
                == self.target_dir@,
            UnlinkPhase::Done(_) => r is None,
        }
    }

    /// The action the caller is to perform next, or nothing once the run is
    /// finished.
    pub fn next_action(&self) -> (r: Option<FsAction>)
        ensures
            self.sp_action_matches(r),
    {
        match &self.phase {
            UnlinkPhase::Probing => Some(FsAction::Probe(self.target_dir.clone())),
            UnlinkPhase::Removing => Some(FsAction::RemoveAll(self.target_dir.clone())),
            UnlinkPhase::Done(_) => None,
        }
    }

    /// How an unlink run advances on an event: a missing target directory is
    /// `NotLinked`, reported before anything is touched; otherwise the one
    /// removal decides the outcome.
    pub open spec fn sp_step(self, e: FsEvent) -> UnlinkRun {
        match self.phase {
            UnlinkPhase::Probing => match e {
                FsEvent::Probed(b) => if b {
                    UnlinkRun { phase: UnlinkPhase::Removing, ..self }
                } else {
                    UnlinkRun { phase: UnlinkPhase::Done(Some(LinkerError::NotLinked)), ..self }
                },
                FsEvent::Failed { message, .. } => UnlinkRun {
                    phase: UnlinkPhase::Done(Some(LinkerError::Io(message))),
                    ..self
                },
                FsEvent::Succeeded => self,
            },
            UnlinkPhase::Removing => match e {
                FsEvent::Succeeded => UnlinkRun { phase: UnlinkPhase::Done(None), ..self },
                FsEvent::Failed { message, .. } => UnlinkRun {
                    phase: UnlinkPhase::Done(Some(LinkerError::Io(message))),
                    ..self
                },
                FsEvent::Probed(_) => self,
            },
            UnlinkPhase::Done(_) => self,
        }
    }

    /// Advances the run with the outcome of the action last handed out.
    pub fn step(self, e: FsEvent) -> (r: UnlinkRun)
        ensures
            r == self.sp_step(e),
    {
        match self.phase {
            UnlinkPhase::Probing => match e {
                FsEvent::Probed(b) => if b {
                    UnlinkRun { phase: UnlinkPhase::Removing, ..self }
                } else {
                    UnlinkRun { phase: UnlinkPhase::Done(Some(LinkerError::NotLinked)), ..self }
                },
                FsEvent::Failed { message, .. } => UnlinkRun {
                    phase: UnlinkPhase::Done(Some(LinkerError::Io(message))),
                    ..self
                },
                FsEvent::Succeeded => UnlinkRun { phase: UnlinkPhase::Probing, ..self },
            },
            UnlinkPhase::Removing => match e {
                FsEvent::Succeeded => UnlinkRun { phase: UnlinkPhase::Done(None), ..self },
                FsEvent::Failed { message, .. } => UnlinkRun {
                    phase: UnlinkPhase::Done(Some(LinkerError::Io(message))),
                    ..self
                },
                FsEvent::Probed(_) => UnlinkRun { phase: UnlinkPhase::Removing, ..self },
            },
            UnlinkPhase::Done(o) => UnlinkRun { phase: UnlinkPhase::Done(o), ..self },
        }
    }

    /// The run's outcome once it is finished.
    pub open spec fn sp_outcome(self) -> Option<Option<LinkerError>> {
        match self.phase {
            UnlinkPhase::Done(o) => Some(o),
            _ => None,
        }
    }

    /// `None` while the run still asks for actions; then `Ok` on success or
    /// the error the run finished with.
    pub fn outcome(&self) -> (r: Option<Result<(), LinkerError>>)
        ensures
            match r {
                None => self.sp_outcome() is None,
                Some(Ok(())) => self.sp_outcome() == Some(None::<LinkerError>),
                Some(Err(e)) => self.sp_outcome() == Some(Some(e)),
            },
    {
        match &self.phase {
            UnlinkPhase::Done(None) => Some(Ok(())),
            UnlinkPhase::Done(Some(e)) => Some(Err(e.clone())),
            _ => None,
        }
    }
}

/// Starts an unlink run for the descriptor: the directory
/// `dest_root/<name>` will be removed as one tree.
///
/// Succeeds exactly when the descriptor's name is a valid directory name;
/// nothing is touched until the returned run's actions are performed.
pub fn unlink(dest_root: &str, descriptor: &CurseForgeInstance) -> (r: Result<
    UnlinkRun,
    LinkerError,
>)
    ensures
        match r {
            Ok(run) => sp_valid_name(descriptor@.name) && run.wf() && run.phase is Probing
                && run.name@ == descriptor@.name && run.dest_root@ == dest_root@,
            Err(e) => !sp_valid_name(descriptor@.name) && e == LinkerError::InvalidName,
        },
{
    if !valid_name(descriptor.name.as_str()) {
        return Err(LinkerError::InvalidName);
    }
    let target_dir = join_path(dest_root, descriptor.name.as_str());
    Ok(
        UnlinkRun {
            phase: UnlinkPhase::Probing,
            name: descriptor.name.clone(),
            dest_root: String::from_str(dest_root),
            target_dir,
        },
    )
}

/// The modelled contents of the target directory: the two artifacts and the
/// symlink, each present or not.
pub struct TargetModel {
    /// The config file's text, once written.
    pub cfg: Option<Seq<char>>,
    /// The component-pack file's text, once written.
    pub pack: Option<Seq<char>>,
    /// Where the content symlink points, once created.
    pub link_to: Option<Seq<char>>,
}

/// A model of the destination root as one run sees it: the set of unrelated
/// child entries, which the engine never touches, and the target directory
/// with its contents, if it exists.
pub struct DestModel {
    /// The names of the root's other children.
    pub others: Set<Seq<char>>,
    /// The target directory, when it exists.
    pub target: Option<TargetModel>,
}

/// The directory listing of the destination root under this model.
pub open spec fn sp_listing(m: DestModel, name: Seq<char>) -> Set<Seq<char>> {
    if m.target is Some {
        m.others.insert(name)
    } else {
        m.others
    }
}

/// An empty, freshly created target directory.
pub open spec fn sp_empty_target() -> TargetModel {
    TargetModel { cfg: None, pack: None, link_to: None }
}

/// The fully built target directory of a run: exactly the config file, the
/// component-pack file, and the symlink to the source.
pub open spec fn sp_full_target(run: LinkRun) -> TargetModel {
    TargetModel {
        cfg: Some(run.cfg_text@),
        pack: Some(run.pack_text@),
        link_to: Some(run.source_dir@),
    }
}

/// What the filesystem can do to the model when the caller performs the
/// action of the link run's current phase and reports `e`.  A probe answers
/// truthfully and changes nothing; a successful operation has its stated
/// effect; a failed one leaves the other entries alone but is not trusted
/// beyond that.
pub open spec fn sp_link_evolve(run: LinkRun, m: DestModel, e: FsEvent, m2: DestModel) -> bool {
    match run.phase {
        LinkPhase::Probing => m2 == m && match e {
            FsEvent::Probed(b) => b == (m.target is Some),
            FsEvent::Failed { .. } => true,
            FsEvent::Succeeded => false,
        },
        LinkPhase::Creating => match e {
            FsEvent::Succeeded => m2 == DestModel { target: Some(sp_empty_target()), ..m },
            FsEvent::Failed { .. } => m2 == m,
            FsEvent::Probed(_) => false,
        },
        LinkPhase::WritingConfig => match e {
            FsEvent::Succeeded => m.target is Some && m2 == DestModel {
                target: Some(TargetModel { cfg: Some(run.cfg_text@), ..m.target->0 }),
                ..m
            },
            FsEvent::Failed { .. } => m2.others == m.others,
            FsEvent::Probed(_) => false,
        },
        LinkPhase::WritingPack => match e {
            FsEvent::Succeeded => m.target is Some && m2 == DestModel {
                target: Some(TargetModel { pack: Some(run.pack_text@), ..m.target->0 }),
                ..m
            },
            FsEvent::Failed { .. } => m2.others == m.others,
            FsEvent::Probed(_) => false,
        },
        LinkPhase::Linking => match e {
            FsEvent::Succeeded => m.target is Some && m2 == DestModel {
                target: Some(TargetModel { link_to: Some(run.source_dir@), ..m.target->0 }),
                ..m
            },
            FsEvent::Failed { .. } => m2.others == m.others,
            FsEvent::Probed(_) => false,
        },
        LinkPhase::RollingBack(_) => match e {
            FsEvent::Succeeded => m2 == DestModel { target: None, ..m },
            FsEvent::Failed { .. } => m2.others == m.others,
            FsEvent::Probed(_) => false,
        },
        LinkPhase::Done(_) => m2 == m,
    }
}

/// The invariant a link run keeps against the model: `m0` is the model when
/// the run started, `m` the model now.  It pins down, phase by phase, which
/// artifacts stand in the target directory, and at every finish what the
/// outcome says about the filesystem.
pub open spec fn sp_link_inv(run: LinkRun, m0: DestModel, m: DestModel) -> bool {
    &&& run.wf()
    &&& match run.phase {
        LinkPhase::Probing => m == m0,
        LinkPhase::Creating => m == m0 && m0.target is None,
        LinkPhase::WritingConfig => m0.target is None && m.others == m0.others && m.target
            == Some(sp_empty_target()),
        LinkPhase::WritingPack => m0.target is None && m.others == m0.others && m.target == Some(
            TargetModel { cfg: Some(run.cfg_text@), pack: None, link_to: None },
        ),
        LinkPhase::Linking => m0.target is None && m.others == m0.others && m.target == Some(
            TargetModel { cfg: Some(run.cfg_text@), pack: Some(run.pack_text@), link_to: None },
        ),
        LinkPhase::RollingBack(err) => m0.target is None && m.others == m0.others && (err
            is SymlinkPermission || err is Io),
        LinkPhase::Done(o) => match o {
            None => m0.target is None && m.others == m0.others && m.target == Some(
                sp_full_target(run),
            ),
            Some(err) => match err {
                LinkerError::NameConflict => m == m0 && m0.target is Some,
                LinkerError::SymlinkPermission(_) => m == m0 && m0.target is None,
                LinkerError::Io(_) => m.others == m0.others,
                _ => false,
            },
        },
    }
}

/// A freshly started link run keeps the invariant against the untouched
/// model.
pub proof fn lemma_link_inv_init(run: LinkRun, m0: DestModel)
    requires
        run.wf(),
        run.phase is Probing,
    ensures
        sp_link_inv(run, m0, m0),
{
}

/// One step of a link run preserves the invariant: whatever event comes
/// back, the new run state still describes the evolved model.
pub proof fn lemma_link_step_preserves(
    run: LinkRun,
    e: FsEvent,
    m0: DestModel,
    m: DestModel,
    m2: DestModel,
)
    requires
        sp_link_inv(run, m0, m),
        sp_link_evolve(run, m, e, m2),
    ensures
        sp_link_inv(run.sp_step(e), m0, m2),
{
}

/// When a link run finishes with `SymlinkPermission`, the destination root
/// stands exactly as before the run: the rollback removed the target
/// directory and no partial state is left behind.
pub proof fn lemma_symlink_failure_leaves_no_trace(run: LinkRun, m0: DestModel, m: DestModel)
    requires
        sp_link_inv(run, m0, m),
        run.phase matches LinkPhase::Done(Some(LinkerError::SymlinkPermission(_))),
    ensures
        m == m0,
        m.target is None,
{
}

/// When a link run finishes successfully, the target directory holds
/// exactly the synthesized config text, the synthesized component pack, and
/// the symlink to the source directory — and the root's other entries stand
/// untouched.
pub proof fn lemma_link_success_artifacts(run: LinkRun, m0: DestModel, m: DestModel)
    requires
        sp_link_inv(run, m0, m),
        run.phase matches LinkPhase::Done(None),
    ensures
        m.others == m0.others,
        m0.target is None,
        m.target == Some(
            TargetModel {
                cfg: Some(sp_config_text(run.descriptor@.name)),
                pack: Some(sp_pack_text(run.descriptor@)),
                link_to: Some(run.source_dir@),
            },
        ),
{
}

/// A second link right after a successful one for the same name answers
/// `NameConflict` on its probe and touches nothing: the first link's
/// artifacts stand exactly as the first run left them.
pub proof fn lemma_relink_conflicts(
    first: LinkRun,
    m0: DestModel,
    m1: DestModel,
    second: LinkRun,
    e: FsEvent,
    m2: DestModel,
)
    requires
        sp_link_inv(first, m0, m1),
        first.phase matches LinkPhase::Done(None),
        second.wf(),
        second.phase is Probing,
        second.name@ == first.name@,
        sp_link_evolve(second, m1, e, m2),
        e is Probed,
    ensures
        second.sp_step(e).phase == LinkPhase::Done(Some(LinkerError::NameConflict)),
        m2 == m1,
        m1.target == Some(sp_full_target(first)),
{
}

/// What the filesystem can do to the model when the caller performs the
/// action of the unlink run's current phase and reports `e`.
pub open spec fn sp_unlink_evolve(run: UnlinkRun, m: DestModel, e: FsEvent, m2: DestModel) -> bool {
    match run.phase {
        UnlinkPhase::Probing => m2 == m && match e {
            FsEvent::Probed(b) => b == (m.target is Some),
            FsEvent::Failed { .. } => true,
            FsEvent::Succeeded => false,
        },
        UnlinkPhase::Removing => match e {
            FsEvent::Succeeded => m2 == DestModel { target: None, ..m },
            FsEvent::Failed { .. } => m2.others == m.others,
            FsEvent::Probed(_) => false,
        },
        UnlinkPhase::Done(_) => m2 == m,
    }
}

/// The invariant an unlink run keeps against the model.
pub open spec fn sp_unlink_inv(run: UnlinkRun, m0: DestModel, m: DestModel) -> bool {
    &&& run.wf()
    &&& match run.phase {
        UnlinkPhase::Probing => m == m0,
        UnlinkPhase::Removing => m == m0 && m0.target is Some,
        UnlinkPhase::Done(o) => match o {
            None => m.others == m0.others && m.target is None && m0.target is Some,
            Some(err) => match err {
                LinkerError::NotLinked => m == m0 && m0.target is None,
                LinkerError::Io(_) => m.others == m0.others,
                _ => false,
            },
        },
    }
}

/// A freshly started unlink run keeps the invariant against the untouched
/// model.
pub proof fn lemma_unlink_inv_init(run: UnlinkRun, m0: DestModel)
    requires
        run.wf(),
        run.phase is Probing,
    ensures
        sp_unlink_inv(run, m0, m0),
{
}

/// One step of an unlink run preserves the invariant.
pub proof fn lemma_unlink_step_preserves(
    run: UnlinkRun,
    e: FsEvent,
    m0: DestModel,
    m: DestModel,
    m2: DestModel,
)
    requires
        sp_unlink_inv(run, m0, m),
        sp_unlink_evolve(run, m, e, m2),
    ensures
        sp_unlink_inv(run.sp_step(e), m0, m2),
{
}

/// Unlinking a descriptor whose target directory does not exist fails with
/// `NotLinked` on its probe and performs no filesystem mutation.
pub proof fn lemma_unlink_missing_is_not_linked(
    run: UnlinkRun,
    m: DestModel,
    e: FsEvent,
    m2: DestModel,
)
    requires
        run.wf(),
        run.phase is Probing,
        m.target is None,
        sp_unlink_evolve(run, m, e, m2),
        e is Probed,
    ensures
        run.sp_step(e).phase == UnlinkPhase::Done(Some(LinkerError::NotLinked)),
        m2 == m,
{
}

/// A link followed by an unlink of the same descriptor restores the
/// destination root to exactly its pre-link state: the round trip is the
/// identity on the model, and in particular on the root's directory
/// listing.
pub proof fn lemma_link_unlink_round_trip(
    lrun: LinkRun,
    m0: DestModel,
    m1: DestModel,
    urun: UnlinkRun,
    m2: DestModel,
)
    requires
        sp_link_inv(lrun, m0, m1),
        lrun.phase matches LinkPhase::Done(None),
        sp_unlink_inv(urun, m1, m2),
        urun.phase matches UnlinkPhase::Done(None),
        urun.name@ == lrun.name@,
    ensures
        m2 == m0,
        sp_listing(m2, lrun.name@) == sp_listing(m0, lrun.name@),
{
    assert(m2.others == m0.others);
    assert(m2.target is None && m0.target is None);
    assert(m2 == m0);
}

} // verus!
