//! Installation as a protocol between this library, which decides, and its
//! caller, who touches the disk.
//!
//! The caller performs the [`Action`] it is handed and reports what came of it as
//! an [`Event`]; [`Installation::advance`] answers with the next action. Whether a
//! destination counts as installed is judged by one thing only, that it is a
//! directory: a directory left half filled by an earlier failure is taken as it
//! is and not repaired, and a failure cleans nothing up. Nothing here keeps two
//! callers apart who install at one destination at the same time.

use crate::archive::{
    archive_bytes, open_archive, zip_archive_opens, ExtractFault, InstallError, OpenArchive,
};
use crate::driver::{Driver, DriverView};
use crate::platform::Platform;
use vstd::prelude::*;

verus! {

/// How far an installation has come.
#[derive(Debug, Clone, Copy, PartialEq, Eq, Hash, Structural)]
pub enum Stage {
    /// Waiting to learn whether the destination is a directory already.
    Probing,
    /// Waiting for the destination and its missing ancestors to be created.
    Creating,
    /// Waiting for the opened archive to be unpacked into the destination.
    Extracting,
    /// The destination is taken as installed.
    Installed,
    /// The installation was given up.
    Failed(InstallError),
}

/// What the caller reports.
#[derive(Debug, Clone, Copy, PartialEq, Eq)]
pub enum Event {
    /// Nothing yet: the caller asks for the action that is pending.
    Started,
    /// Whether the destination is a directory.
    Probed(bool),
    /// Whether the destination could be created.
    Created(bool),
    /// How unpacking ended.
    Extracted(Result<(), ExtractFault>),
}

/// What the caller is to do next.
#[derive(Debug)]
pub enum Action<'a> {
    /// Find out whether the destination is a directory.
    Probe,
    /// Create the destination and all its missing ancestors.
    CreateDirectory,
    /// Unpack this archive into the destination.
    Extract(OpenArchive<'a>),
    /// Nothing: the installation is complete.
    Done,
    /// Nothing: the installation has failed.
    Fail(InstallError),
}

impl<'a> Action<'a> {
    /// Whether this is the action that is pending at `stage` of an installation of
    /// the bundle `archive`: the archive to unpack is the bundle, opened.
    pub open spec fn is_for(self, stage: Stage, archive: Seq<u8>) -> bool {
        match (self, stage) {
            (Action::Probe, Stage::Probing) => true,
            (Action::CreateDirectory, Stage::Creating) => true,
            (Action::Extract(opened), Stage::Extracting) => archive_bytes(opened) == archive,
            (Action::Done, Stage::Installed) => true,
            (Action::Fail(reported), Stage::Failed(error)) => reported == error,
            _ => false,
        }
    }
}

/// The stage that follows `stage` on `event`, for a bundle that the archive
/// reader opens or does not open. An event that does not answer the pending
/// action changes nothing.
pub open spec fn next_stage(stage: Stage, event: Event, opens: bool) -> Stage {
    match (stage, event) {
        (Stage::Probing, Event::Probed(is_dir)) => if is_dir {
            Stage::Installed
        } else {
            Stage::Creating
        },
        (Stage::Creating, Event::Created(created)) => if !created {
            Stage::Failed(InstallError::Filesystem)
        } else if opens {
            Stage::Extracting
        } else {
            Stage::Failed(InstallError::Archive)
        },
        (Stage::Extracting, Event::Extracted(outcome)) => match outcome {
            Ok(_) => Stage::Installed,
            Err(fault) => Stage::Failed(fault.kind_spec()),
        },
        _ => stage,
    }
}

/// The stage reached from `stage` after all of `events`, in order.
pub open spec fn run(stage: Stage, events: Seq<Event>, opens: bool) -> Stage
    decreases events.len(),
{
    if events.len() == 0 {
        stage
    } else {
        next_stage(run(stage, events.drop_last(), opens), events.last(), opens)
    }
}

/// An installation under way: the handle it is for, the bundle, and the stage.
#[derive(Debug)]
pub struct Installation<'a> {
    driver: Driver,
    archive: &'a [u8],
    stage: Stage,
}

/// What an [`Installation`] stands for.
pub ghost struct InstallationView {
    pub driver: DriverView,
    pub archive: Seq<u8>,
    pub stage: Stage,
}

impl<'a> View for Installation<'a> {
    type V = InstallationView;

    closed spec fn view(&self) -> InstallationView {
        InstallationView { driver: self.driver@, archive: self.archive@, stage: self.stage }
    }
}

impl<'a> Installation<'a> {
    /// An archive is waited for only where the reader has opened the bundle.
    #[verifier::type_invariant]
    spec fn opened_when_extracting(&self) -> bool {
        self.stage is Extracting ==> zip_archive_opens(self.archive@)
    }

    /// Whether this is an installation of `archive` for `platform` that has not
    /// yet learnt anything of its destination.
    pub open spec fn begins(&self, platform: Platform, archive: Seq<u8>) -> bool {
        &&& self@.driver.platform == platform
        &&& self@.archive == archive
        &&& self@.stage == Stage::Probing
    }

    /// An installation that starts by asking whether the destination exists.
    pub(crate) fn probing(driver: Driver, archive: &'a [u8]) -> (run: Installation<'a>)
        ensures
            run@ == (InstallationView { driver: driver@, archive: archive@, stage: Stage::Probing }),
    {
        Installation { driver, archive, stage: Stage::Probing }
    }

    /// An installation that starts by creating the destination.
    pub(crate) fn creating(driver: Driver, archive: &'a [u8]) -> (run: Installation<'a>)
        ensures
            run@ == (InstallationView { driver: driver@, archive: archive@, stage: Stage::Creating }),
    {
        Installation { driver, archive, stage: Stage::Creating }
    }

    /// The stage this installation is at.
    pub fn stage(&self) -> (stage: Stage)
        ensures
            stage == self@.stage,
    {
        self.stage
    }

    /// The handle this installation is for.
    pub fn driver(&self) -> (driver: &Driver)
        ensures
            driver@ == self@.driver,
    {
        &self.driver
    }

    /// Takes in what the caller reports and answers with the action that is
    /// pending afterwards. The bundle is opened when the destination has been
    /// created, not before: a bundle that does not open fails the installation
    /// with the destination already in place.
    pub fn advance(&mut self, event: Event) -> (action: Action<'a>)
        ensures
            final(self)@.driver == old(self)@.driver,
            final(self)@.archive == old(self)@.archive,
            final(self)@.stage == next_stage(
                old(self)@.stage,
                event,
                zip_archive_opens(old(self)@.archive),
            ),
            action.is_for(final(self)@.stage, final(self)@.archive),
    {
        proof {
            use_type_invariant(&*self);
        }
        let aimed = match (self.stage, event) {
            (Stage::Probing, Event::Probed(true)) => Stage::Installed,
            (Stage::Probing, Event::Probed(false)) => Stage::Creating,
            (Stage::Creating, Event::Created(true)) => Stage::Extracting,
            (Stage::Creating, Event::Created(false)) => Stage::Failed(InstallError::Filesystem),
            (Stage::Extracting, Event::Extracted(Ok(_))) => Stage::Installed,
            (Stage::Extracting, Event::Extracted(Err(fault))) => Stage::Failed(fault.kind()),
            (stage, _) => stage,
        };
        match aimed {
            Stage::Probing => {
                self.stage = Stage::Probing;
                Action::Probe
            },
            Stage::Creating => {
                self.stage = Stage::Creating;
                Action::CreateDirectory
            },
            Stage::Extracting => match open_archive(self.archive) {
                Ok(opened) => {
                    self.stage = Stage::Extracting;
                    Action::Extract(opened)
                },
                Err(_) => {
                    self.stage = Stage::Failed(InstallError::Archive);
                    Action::Fail(InstallError::Archive)
                },
            },
            Stage::Installed => {
                self.stage = Stage::Installed;
                Action::Done
            },
            Stage::Failed(error) => {
                self.stage = Stage::Failed(error);
                Action::Fail(error)
            },
        }
    }

    /// How the installation ended: the handle where the destination is taken as
    /// installed, the error where it was given up, and nothing while an action
    /// is still pending.
    pub fn outcome(self) -> (outcome: Option<Result<Driver, InstallError>>)
        ensures
            match self@.stage {
                Stage::Installed => outcome matches Some(Ok(driver)) && driver@ == self@.driver,
                Stage::Failed(error) => outcome == Some(Err::<Driver, InstallError>(error)),
                _ => outcome is None,
            },
    {
        match self.stage {
            Stage::Installed => Some(Ok(self.driver)),
            Stage::Failed(error) => Some(Err(error)),
            _ => None,
        }
    }
}

/// An installation that has ended stays as it ended, whatever is reported
/// afterwards.
pub proof fn lemma_ended_stays_ended(stage: Stage, events: Seq<Event>, opens: bool)
    requires
        stage is Installed || stage is Failed,
    ensures
        run(stage, events, opens) == stage,
    decreases events.len(),
{
    if events.len() > 0 {
        lemma_ended_stays_ended(stage, events.drop_last(), opens);
    }
}

/// Installing where the destination is found to be a directory is complete at
/// once and asks for nothing to be created or unpacked, whatever the bundle is
/// and whatever is reported afterwards. So of two installations at one
/// destination, the second of which finds what the first has made, only the
/// first unpacks, and the second does not fail.
pub proof fn lemma_existing_directory_is_reused(events: Seq<Event>, opens: bool)
    requires
        events.len() > 0,
        events[0] == Event::Probed(true),
    ensures
        run(Stage::Probing, events, opens) == Stage::Installed,
        forall|n: int|
            1 <= n <= events.len() ==> #[trigger] run(Stage::Probing, events.take(n), opens)
                == Stage::Installed,
    decreases events.len(),
{
    let earlier = events.drop_last();
    if earlier.len() == 0 {
        assert(run(Stage::Probing, earlier, opens) == Stage::Probing);
    } else {
        lemma_existing_directory_is_reused(earlier, opens);
    }
    assert forall|n: int| 1 <= n <= events.len() implies #[trigger] run(
        Stage::Probing,
        events.take(n),
        opens,
    ) == Stage::Installed by {
        if n == events.len() {
            assert(events.take(n) == events);
        } else {
            assert(events.take(n) == earlier.take(n));
        }
    }
}

/// With a bundle that the archive reader does not open, no installation comes
/// to wait for an archive to be unpacked.
pub proof fn lemma_unopened_bundle_is_never_unpacked(stage: Stage, events: Seq<Event>)
    requires
        !(stage is Extracting),
    ensures
        !(run(stage, events, false) is Extracting),
    decreases events.len(),
{
    if events.len() > 0 {
        lemma_unopened_bundle_is_never_unpacked(stage, events.drop_last());
    }
}

/// With a bundle that the archive reader does not open, an installation at a
/// destination that was not there and could be created ends in the archive's
/// failure, and stays there.
pub proof fn lemma_unopened_bundle_fails(events: Seq<Event>)
    requires
        events.len() >= 2,
        events[0] == Event::Probed(false),
        events[1] == Event::Created(true),
    ensures
        run(Stage::Probing, events, false) == Stage::Failed(InstallError::Archive),
    decreases events.len(),
{
    let earlier = events.drop_last();
    if events.len() == 2 {
        assert(earlier.drop_last().len() == 0);
        assert(run(Stage::Probing, earlier.drop_last(), false) == Stage::Probing);
        assert(run(Stage::Probing, earlier, false) == Stage::Creating);
    } else {
        lemma_unopened_bundle_fails(earlier);
    }
}

} // verus!
