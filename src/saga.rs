//! Establishing a bridge as a saga: preflight, existence check, certificate
//! validation, registration, persistence, restart, settle wait and enable at
//! boot, each failure after persistence undone by removing the bridge file.
//!
//! The saga decides; its caller performs each action it asks for and hands
//! back how that went.

use vstd::prelude::*;
use crate::bridge::{
    conf_path, get_bridge_config_file_path, get_common_mosquitto_config_file_path,
    bridge_conf_dir_path, BridgeConfig, CommonMosquittoConfig,
};
use crate::cloud::{spec_bridge_conf_dir, Cloud, SystemService, MOSQUITTO_RESTART_TIMEOUT_SECONDS};
use crate::error::ConnectError;
use crate::text::joined;

verus! {

/// How an action went.
#[derive(Debug, Clone, Copy, PartialEq, Eq, Structural)]
pub enum StepOutcome {
    Succeeded,
    Failed,
}

/// What the caller has to do next.
#[derive(Debug)]
pub enum SagaAction {
    /// Ask whether the service supervisor is operational.
    CheckServiceManager,
    /// Succeed when no file is at `path`, fail when one is.
    EnsureAbsent { path: String },
    /// Succeed when both files exist and are readable.
    ValidateCertificates { certfile: String, keyfile: String },
    /// Register the device with the cloud, outside the bridge.
    RegisterDevice { device_type: String },
    /// Create the directory and any missing parents.
    CreateDirectories { path: String },
    /// Replace the file at `path` by `contents`, atomically.
    WriteFile { path: String, contents: String },
    /// Remove the file at `path`; a file already absent is success.
    RemoveFile { path: String },
    RestartService { service: SystemService },
    /// Pause while the broker comes back up.
    Sleep { seconds: u64 },
    EnableService { service: SystemService },
    /// The saga is over with this result.
    Finish { result: Result<(), ConnectError> },
}

/// The mathematical content of an action.
pub ghost enum ActionView {
    CheckServiceManager,
    EnsureAbsent(Seq<char>),
    ValidateCertificates(Seq<char>, Seq<char>),
    RegisterDevice(Seq<char>),
    CreateDirectories(Seq<char>),
    WriteFile(Seq<char>, Seq<char>),
    RemoveFile(Seq<char>),
    RestartService(SystemService),
    Sleep(u64),
    EnableService(SystemService),
    Finish(Result<(), ConnectError>),
}

impl View for SagaAction {
    type V = ActionView;

    open spec fn view(&self) -> ActionView {
        match self {
            SagaAction::CheckServiceManager => ActionView::CheckServiceManager,
            SagaAction::EnsureAbsent { path } => ActionView::EnsureAbsent(path@),
            SagaAction::ValidateCertificates { certfile, keyfile } => ActionView::ValidateCertificates(
                certfile@,
                keyfile@,
            ),
            SagaAction::RegisterDevice { device_type } => ActionView::RegisterDevice(device_type@),
            SagaAction::CreateDirectories { path } => ActionView::CreateDirectories(path@),
            SagaAction::WriteFile { path, contents } => ActionView::WriteFile(path@, contents@),
            SagaAction::RemoveFile { path } => ActionView::RemoveFile(path@),
            SagaAction::RestartService { service } => ActionView::RestartService(*service),
            SagaAction::Sleep { seconds } => ActionView::Sleep(*seconds),
            SagaAction::EnableService { service } => ActionView::EnableService(*service),
            SagaAction::Finish { result } => ActionView::Finish(*result),
        }
    }
}

/// Which action the saga waits on.
#[derive(Debug, Clone, Copy, PartialEq, Eq, Structural)]
pub enum SagaPhase {
    Preflight,
    ExistenceCheck,
    Validation,
    Registration,
    CreateDir,
    WriteBridge,
    WriteCommon,
    Restart,
    Settle,
    Enable,
    CleanUpAfterPersist,
    CleanUpAfterRestart,
    CleanUpAfterEnable,
    Done,
}

/// One attempt at establishing a bridge.
pub struct BridgeSaga {
    pub cloud: Cloud,
    pub bridge: BridgeConfig,
    pub common: CommonMosquittoConfig,
    pub config_root: String,
    pub device_type: String,
    pub phase: SagaPhase,
    /// What the preflight found of the service supervisor.
    pub service_manager_ok: bool,
}

impl BridgeSaga {
    pub open spec fn bridge_path(self) -> Seq<char> {
        conf_path(self.config_root@, self.bridge.config_file@)
    }

    pub open spec fn common_path(self) -> Seq<char> {
        conf_path(self.config_root@, self.common.config_file@)
    }

    pub open spec fn dir_path(self) -> Seq<char> {
        joined(self.config_root@, spec_bridge_conf_dir())
    }

    /// The action that removes the bridge file.
    pub open spec fn undo(self) -> ActionView {
        ActionView::RemoveFile(self.bridge_path())
    }

    pub open spec fn create_dirs(self) -> ActionView {
        ActionView::CreateDirectories(self.dir_path())
    }

    /// The transition: from the phase, the preflight's finding and the
    /// outcome of the last action, to the new phase, finding and action.
    pub open spec fn next(self, ev: StepOutcome) -> (SagaPhase, bool, ActionView) {
        let ok = ev == StepOutcome::Succeeded;
        let m = self.service_manager_ok;
        match self.phase {
            SagaPhase::Preflight => (
                SagaPhase::ExistenceCheck,
                ok,
                ActionView::EnsureAbsent(self.bridge_path()),
            ),
            SagaPhase::ExistenceCheck => if ok {
                (
                    SagaPhase::Validation,
                    m,
                    ActionView::ValidateCertificates(
                        self.bridge.bridge_certfile@,
                        self.bridge.bridge_keyfile@,
                    ),
                )
            } else {
                (
                    SagaPhase::Done,
                    m,
                    ActionView::Finish(Err(ConnectError::ConfigurationExists { cloud: self.cloud })),
                )
            },
            SagaPhase::Validation => if !ok {
                (SagaPhase::Done, m, ActionView::Finish(Err(ConnectError::InvalidCertificate)))
            } else if self.cloud.spec_registers_device() {
                (SagaPhase::Registration, m, ActionView::RegisterDevice(self.device_type@))
            } else {
                (SagaPhase::CreateDir, m, self.create_dirs())
            },
            SagaPhase::Registration => if ok {
                (SagaPhase::CreateDir, m, self.create_dirs())
            } else {
                (SagaPhase::Done, m, ActionView::Finish(Err(ConnectError::CloudRegistrationFailed)))
            },
            SagaPhase::CreateDir => if ok {
                (
                    SagaPhase::WriteBridge,
                    m,
                    ActionView::WriteFile(self.bridge_path(), self.bridge.spec_text()),
                )
            } else {
                (SagaPhase::CleanUpAfterPersist, m, self.undo())
            },
            SagaPhase::WriteBridge => if ok {
                (
                    SagaPhase::WriteCommon,
                    m,
                    ActionView::WriteFile(self.common_path(), self.common.spec_text()),
                )
            } else {
                (SagaPhase::CleanUpAfterPersist, m, self.undo())
            },
            SagaPhase::WriteCommon => if !ok {
                (SagaPhase::CleanUpAfterPersist, m, self.undo())
            } else if !m {
                (
                    SagaPhase::Done,
                    m,
                    ActionView::Finish(Err(ConnectError::ServiceManagerUnavailable)),
                )
            } else {
                (SagaPhase::Restart, m, ActionView::RestartService(SystemService::Mosquitto))
            },
            SagaPhase::Restart => if ok {
                (SagaPhase::Settle, m, ActionView::Sleep(MOSQUITTO_RESTART_TIMEOUT_SECONDS))
            } else {
                (SagaPhase::CleanUpAfterRestart, m, self.undo())
            },
            SagaPhase::Settle => (
                SagaPhase::Enable,
                m,
                ActionView::EnableService(SystemService::Mosquitto),
            ),
            SagaPhase::Enable => if ok {
                (SagaPhase::Done, m, ActionView::Finish(Ok(())))
            } else {
                (SagaPhase::CleanUpAfterEnable, m, self.undo())
            },
            SagaPhase::CleanUpAfterPersist => (
                SagaPhase::Done,
                m,
                ActionView::Finish(Err(ConnectError::IoFailure)),
            ),
            SagaPhase::CleanUpAfterRestart => (
                SagaPhase::Done,
                m,
                ActionView::Finish(Err(ConnectError::ServiceRestartFailed)),
            ),
            SagaPhase::CleanUpAfterEnable => (
                SagaPhase::Done,
                m,
                ActionView::Finish(Err(ConnectError::ServiceEnableFailed)),
            ),
            SagaPhase::Done => (SagaPhase::Done, m, ActionView::Finish(Ok(()))),
        }
    }

    fn remove_bridge_file(&self) -> (r: SagaAction)
        ensures
            r@ == self.undo(),
    {
        SagaAction::RemoveFile {
            path: get_bridge_config_file_path(self.config_root.as_str(), &self.bridge),
        }
    }

    fn create_conf_dir(&self) -> (r: SagaAction)
        ensures
            r@ == self.create_dirs(),
    {
        SagaAction::CreateDirectories { path: bridge_conf_dir_path(self.config_root.as_str()) }
    }

    /// Takes the outcome of the last action asked for and gives the next one.
    pub fn advance(&mut self, ev: StepOutcome) -> (r: SagaAction)
        requires
            old(self).phase != SagaPhase::Done,
        ensures
            final(self).cloud == old(self).cloud,
            final(self).bridge == old(self).bridge,
            final(self).common == old(self).common,
            final(self).config_root == old(self).config_root,
            final(self).device_type == old(self).device_type,
            (final(self).phase, final(self).service_manager_ok, r@) == old(self).next(ev),
    {
        let ok = ev == StepOutcome::Succeeded;
        match self.phase {
            SagaPhase::Preflight => {
                self.service_manager_ok = ok;
                self.phase = SagaPhase::ExistenceCheck;
                SagaAction::EnsureAbsent {
                    path: get_bridge_config_file_path(self.config_root.as_str(), &self.bridge),
                }
            },
            SagaPhase::ExistenceCheck => {
                if ok {
                    self.phase = SagaPhase::Validation;
                    SagaAction::ValidateCertificates {
                        certfile: self.bridge.bridge_certfile.clone(),
                        keyfile: self.bridge.bridge_keyfile.clone(),
                    }
                } else {
                    self.phase = SagaPhase::Done;
                    SagaAction::Finish {
                        result: Err(ConnectError::ConfigurationExists { cloud: self.cloud }),
                    }
                }
            },
            SagaPhase::Validation => {
                if !ok {
                    self.phase = SagaPhase::Done;
                    SagaAction::Finish { result: Err(ConnectError::InvalidCertificate) }
                } else {
                    match self.cloud {
                        Cloud::C8y => {
                            self.phase = SagaPhase::Registration;
                            SagaAction::RegisterDevice { device_type: self.device_type.clone() }
                        },
                        Cloud::Azure => {
                            self.phase = SagaPhase::CreateDir;
                            self.create_conf_dir()
                        },
                    }
                }
            },
            SagaPhase::Registration => {
                if ok {
                    self.phase = SagaPhase::CreateDir;
                    self.create_conf_dir()
                } else {
                    self.phase = SagaPhase::Done;
                    SagaAction::Finish { result: Err(ConnectError::CloudRegistrationFailed) }
                }
            },
            SagaPhase::CreateDir => {
                if ok {
                    self.phase = SagaPhase::WriteBridge;
                    SagaAction::WriteFile {
                        path: get_bridge_config_file_path(self.config_root.as_str(), &self.bridge),
                        contents: self.bridge.serialize(),
                    }
                } else {
                    self.phase = SagaPhase::CleanUpAfterPersist;
                    self.remove_bridge_file()
                }
            },
            SagaPhase::WriteBridge => {
                if ok {
                    self.phase = SagaPhase::WriteCommon;
                    SagaAction::WriteFile {
                        path: get_common_mosquitto_config_file_path(
                            self.config_root.as_str(),
                            &self.common,
                        ),
                        contents: self.common.serialize(),
                    }
                } else {
                    self.phase = SagaPhase::CleanUpAfterPersist;
                    self.remove_bridge_file()
                }
            },
            SagaPhase::WriteCommon => {
                if !ok {
                    self.phase = SagaPhase::CleanUpAfterPersist;
                    self.remove_bridge_file()
                } else if !self.service_manager_ok {
                    self.phase = SagaPhase::Done;
                    SagaAction::Finish { result: Err(ConnectError::ServiceManagerUnavailable) }
                } else {
                    self.phase = SagaPhase::Restart;
                    SagaAction::RestartService { service: SystemService::Mosquitto }
                }
            },
            SagaPhase::Restart => {
                if ok {
                    self.phase = SagaPhase::Settle;
                    SagaAction::Sleep { seconds: MOSQUITTO_RESTART_TIMEOUT_SECONDS }
                } else {
                    self.phase = SagaPhase::CleanUpAfterRestart;
                    self.remove_bridge_file()
                }
            },
            SagaPhase::Settle => {
                self.phase = SagaPhase::Enable;
                SagaAction::EnableService { service: SystemService::Mosquitto }
            },
            SagaPhase::Enable => {
                if ok {
                    self.phase = SagaPhase::Done;
                    SagaAction::Finish { result: Ok(()) }
                } else {
                    self.phase = SagaPhase::CleanUpAfterEnable;
                    self.remove_bridge_file()
                }
            },
            SagaPhase::CleanUpAfterPersist => {
                self.phase = SagaPhase::Done;
                SagaAction::Finish { result: Err(ConnectError::IoFailure) }
            },
            SagaPhase::CleanUpAfterRestart => {
                self.phase = SagaPhase::Done;
                SagaAction::Finish { result: Err(ConnectError::ServiceRestartFailed) }
            },
            SagaPhase::CleanUpAfterEnable => {
                self.phase = SagaPhase::Done;
                SagaAction::Finish { result: Err(ConnectError::ServiceEnableFailed) }
            },
            SagaPhase::Done => SagaAction::Finish { result: Ok(()) },
        }
    }
}

/// Starts establishing `bridge` with the shared options `common` under the
/// configuration root: the saga first asks to check the service supervisor.
pub fn new_bridge(
    cloud: Cloud,
    bridge: BridgeConfig,
    common: CommonMosquittoConfig,
    config_root: String,
    device_type: String,
) -> (r: (BridgeSaga, SagaAction))
    ensures
        r.0.cloud == cloud,
        r.0.bridge == bridge,
        r.0.common == common,
        r.0.config_root == config_root,
        r.0.device_type == device_type,
        r.0.phase == SagaPhase::Preflight,
        r.1@ == ActionView::CheckServiceManager,
{
    (
        BridgeSaga {
            cloud,
            bridge,
            common,
            config_root,
            device_type,
            phase: SagaPhase::Preflight,
            service_manager_ok: false,
        },
        SagaAction::CheckServiceManager,
    )
}

/// What removing a file found.
#[derive(Debug, Clone, Copy, PartialEq, Eq, Structural)]
pub enum Removal {
    Removed,
    NotFound,
    Failed,
}

/// The outcome of removing the bridge file: a file that is already absent
/// counts as removed.
pub fn clean_up(removal: Removal) -> (r: StepOutcome)
    ensures
        r == StepOutcome::Failed <==> removal == Removal::Failed,
{
    match removal {
        Removal::Failed => StepOutcome::Failed,
        _ => StepOutcome::Succeeded,
    }
}

/// A host as the saga sees it: the files on disk, and how each outside
/// action is going to turn out.
pub ghost struct Host {
    pub files: Map<Seq<char>, Seq<char>>,
    pub manager_ok: bool,
    pub certs_ok: bool,
    pub registration_ok: bool,
    pub dirs_ok: bool,
    /// The paths whose writes fail; a failed write leaves the file as it was.
    pub failing_writes: Set<Seq<char>>,
    pub restart_ok: bool,
    pub enable_ok: bool,
    pub restarts: nat,
    pub enables: nat,
}

pub open spec fn outcome_of(ok: bool) -> StepOutcome {
    if ok {
        StepOutcome::Succeeded
    } else {
        StepOutcome::Failed
    }
}

/// What performing an action does to the host, and how it goes. Removing an
/// absent file succeeds.
pub open spec fn perform(h: Host, a: ActionView) -> (Host, StepOutcome) {
    match a {
        ActionView::CheckServiceManager => (h, outcome_of(h.manager_ok)),
        ActionView::EnsureAbsent(p) => (h, outcome_of(!h.files.contains_key(p))),
        ActionView::ValidateCertificates(_, _) => (h, outcome_of(h.certs_ok)),
        ActionView::RegisterDevice(_) => (h, outcome_of(h.registration_ok)),
        ActionView::CreateDirectories(_) => (h, outcome_of(h.dirs_ok)),
        ActionView::WriteFile(p, c) => if h.failing_writes.contains(p) {
            (h, StepOutcome::Failed)
        } else {
            (Host { files: h.files.insert(p, c), ..h }, StepOutcome::Succeeded)
        },
        ActionView::RemoveFile(p) => (Host { files: h.files.remove(p), ..h }, StepOutcome::Succeeded),
        ActionView::RestartService(_) => (
            Host { restarts: h.restarts + 1, ..h },
            outcome_of(h.restart_ok),
        ),
        ActionView::Sleep(_) => (h, StepOutcome::Succeeded),
        ActionView::EnableService(_) => (
            Host { enables: h.enables + 1, ..h },
            outcome_of(h.enable_ok),
        ),
        ActionView::Finish(_) => (h, StepOutcome::Succeeded),
    }
}

/// Drives the saga `s`, whose pending action is `a`, on the host `h` for at
/// most `fuel` actions; the result of the saga and the host it leaves.
pub open spec fn drive(s: BridgeSaga, a: ActionView, h: Host, fuel: nat) -> (Result<
    (),
    ConnectError,
>, Host)
    decreases fuel,
{
    match a {
        ActionView::Finish(r) => (r, h),
        _ => if fuel == 0 {
            (Err(ConnectError::IoFailure), h)
        } else {
            let (h2, ev) = perform(h, a);
            let (ph, m, a2) = s.next(ev);
            drive(BridgeSaga { phase: ph, service_manager_ok: m, ..s }, a2, h2, (fuel - 1) as nat)
        },
    }
}

/// One whole attempt, from the start of the saga (which asks no more than
/// thirteen actions).
pub open spec fn establish(s: BridgeSaga, h: Host) -> (Result<(), ConnectError>, Host) {
    drive(s, ActionView::CheckServiceManager, h, 16)
}

/// Everything outside works and the bridge's two files can be written.
pub open spec fn healthy(s: BridgeSaga, h: Host) -> bool {
    &&& h.manager_ok
    &&& h.certs_ok
    &&& h.registration_ok
    &&& h.dirs_ok
    &&& h.restart_ok
    &&& h.enable_ok
    &&& !h.failing_writes.contains(s.bridge_path())
    &&& !h.failing_writes.contains(s.common_path())
}

/// When a bridge file for the cloud is already on disk, the attempt fails
/// with the configuration-exists error and leaves the host as it was.
pub proof fn lemma_existing_bridge_rejected(s: BridgeSaga, h: Host)
    requires
        s.phase == SagaPhase::Preflight,
        h.files.contains_key(s.bridge_path()),
    ensures
        establish(s, h) == (Err::<(), ConnectError>(ConnectError::ConfigurationExists { cloud: s.cloud }), h),
{
    reveal_with_fuel(drive, 4);
}

/// On a healthy host without the bridge file, the attempt succeeds: both
/// files hold their text, and the broker was restarted and enabled once.
pub proof fn lemma_establish_succeeds(s: BridgeSaga, h: Host)
    requires
        s.phase == SagaPhase::Preflight,
        healthy(s, h),
        !h.files.contains_key(s.bridge_path()),
    ensures
        establish(s, h).0 == Ok::<(), ConnectError>(()),
        establish(s, h).1 == (Host {
            files: h.files.insert(s.bridge_path(), s.bridge.spec_text()).insert(
                s.common_path(),
                s.common.spec_text(),
            ),
            restarts: h.restarts + 1,
            enables: h.enables + 1,
            ..h
        }),
{
    reveal_with_fuel(drive, 14);
}

/// Establishing twice on a healthy host: the second attempt is rejected
/// with the configuration-exists error and leaves the first one's files.
pub proof fn lemma_establish_twice(s: BridgeSaga, h: Host)
    requires
        s.phase == SagaPhase::Preflight,
        healthy(s, h),
        !h.files.contains_key(s.bridge_path()),
    ensures
        establish(s, establish(s, h).1).0 == Err::<(), ConnectError>(
            ConnectError::ConfigurationExists { cloud: s.cloud },
        ),
        establish(s, establish(s, h).1).1.files == establish(s, h).1.files,
{
    lemma_establish_succeeds(s, h);
    let h1 = establish(s, h).1;
    assert(h1.files.contains_key(s.bridge_path()));
    lemma_existing_bridge_rejected(s, h1);
}

/// When the bridge file is written and the second file's write fails, the
/// bridge file is removed again: the files are as before the attempt.
pub proof fn lemma_failed_write_rolled_back(s: BridgeSaga, h: Host)
    requires
        s.phase == SagaPhase::Preflight,
        h.certs_ok,
        h.registration_ok,
        h.dirs_ok,
        !h.files.contains_key(s.bridge_path()),
        !h.failing_writes.contains(s.bridge_path()),
        h.failing_writes.contains(s.common_path()),
    ensures
        establish(s, h).0 == Err::<(), ConnectError>(ConnectError::IoFailure),
        establish(s, h).1.files == h.files,
{
    reveal_with_fuel(drive, 10);
    assert(h.files.insert(s.bridge_path(), s.bridge.spec_text()).remove(s.bridge_path()) =~= h.files);
}

/// Without a service supervisor the attempt still writes both files, then
/// stops with the manual-action error before any restart or enable.
pub proof fn lemma_no_supervisor_saves_only(s: BridgeSaga, h: Host)
    requires
        s.phase == SagaPhase::Preflight,
        !h.manager_ok,
        h.certs_ok,
        h.registration_ok,
        h.dirs_ok,
        !h.files.contains_key(s.bridge_path()),
        !h.failing_writes.contains(s.bridge_path()),
        !h.failing_writes.contains(s.common_path()),
    ensures
        establish(s, h).0 == Err::<(), ConnectError>(ConnectError::ServiceManagerUnavailable),
        establish(s, h).1.files == h.files.insert(s.bridge_path(), s.bridge.spec_text()).insert(
            s.common_path(),
            s.common.spec_text(),
        ),
        establish(s, h).1.restarts == h.restarts,
        establish(s, h).1.enables == h.enables,
{
    reveal_with_fuel(drive, 10);
}

/// At most how many more actions the saga asks for from `phase`.
pub open spec fn rank(phase: SagaPhase) -> nat {
    match phase {
        SagaPhase::Preflight => 11,
        SagaPhase::ExistenceCheck => 10,
        SagaPhase::Validation => 9,
        SagaPhase::Registration => 8,
        SagaPhase::CreateDir => 7,
        SagaPhase::WriteBridge => 6,
        SagaPhase::WriteCommon => 5,
        SagaPhase::Restart => 4,
        SagaPhase::Settle => 3,
        SagaPhase::Enable => 2,
        SagaPhase::CleanUpAfterPersist => 1,
        SagaPhase::CleanUpAfterRestart => 1,
        SagaPhase::CleanUpAfterEnable => 1,
        SagaPhase::Done => 0,
    }
}

/// Before the bridge file is written, it is not on disk.
pub open spec fn before_writing(phase: SagaPhase) -> bool {
    phase == SagaPhase::Preflight || phase == SagaPhase::ExistenceCheck || phase
        == SagaPhase::Validation || phase == SagaPhase::Registration || phase == SagaPhase::CreateDir
}

pub open spec fn cleaning_up(phase: SagaPhase) -> bool {
    phase == SagaPhase::CleanUpAfterPersist || phase == SagaPhase::CleanUpAfterRestart || phase
        == SagaPhase::CleanUpAfterEnable
}

/// What holds of a saga, its pending action and the host at every step of
/// an attempt that started without a bridge file.
pub open spec fn rollback_inv(s: BridgeSaga, a: ActionView, h: Host) -> bool {
    &&& (a is Finish) == (s.phase == SagaPhase::Done)
    &&& before_writing(s.phase) ==> !h.files.contains_key(s.bridge_path()) && !(a is WriteFile)
    &&& cleaning_up(s.phase) ==> a == s.undo()
    &&& a matches ActionView::Finish(r) ==> (r is Ok || r == Err::<(), ConnectError>(
        ConnectError::ServiceManagerUnavailable,
    ) || !h.files.contains_key(s.bridge_path()))
}

proof fn lemma_drive_rollback(s: BridgeSaga, a: ActionView, h: Host, fuel: nat)
    requires
        rollback_inv(s, a, h),
        fuel >= rank(s.phase),
    ensures
        ({
            let r = drive(s, a, h, fuel);
            r.0 is Err && r.0 != Err::<(), ConnectError>(ConnectError::ServiceManagerUnavailable)
                ==> !r.1.files.contains_key(s.bridge_path())
        }),
    decreases fuel,
{
    if !(a is Finish) {
        let (h2, ev) = perform(h, a);
        let (ph, m, a2) = s.next(ev);
        let s2 = BridgeSaga { phase: ph, service_manager_ok: m, ..s };
        assert(s2.bridge_path() == s.bridge_path());
        assert(s2.undo() == s.undo());
        assert(rollback_inv(s2, a2, h2));
        lemma_drive_rollback(s2, a2, h2, (fuel - 1) as nat);
    }
}

/// Whatever the host does, an attempt that starts without a bridge file and
/// fails (other than for the missing supervisor, which keeps the saved
/// configuration) leaves no bridge file behind.
pub proof fn lemma_failure_leaves_no_bridge_file(s: BridgeSaga, h: Host)
    requires
        s.phase == SagaPhase::Preflight,
        !h.files.contains_key(s.bridge_path()),
    ensures
        establish(s, h).0 is Err && establish(s, h).0 != Err::<(), ConnectError>(
            ConnectError::ServiceManagerUnavailable,
        ) ==> !establish(s, h).1.files.contains_key(s.bridge_path()),
{
    lemma_drive_rollback(s, ActionView::CheckServiceManager, h, 16);
}

} // verus!
