//! The setup of the database before each cycle, as a state machine. The
//! caller talks to the database: it does what the state asks for and hands
//! the answer back as an event.

use vstd::prelude::*;

verus! {

/// Why the setup failed. Either way the failure is taken to pass.
#[derive(Clone, Copy, Debug, PartialEq, Eq)]
pub enum ProvisionError {
    /// The database could not be reached.
    Connect,
    /// The database refused the statements of the file with this index.
    Apply(usize),
}

/// What the setup asks its caller to do next.
#[derive(Clone, Copy, Debug, PartialEq, Eq)]
pub enum Provision {
    /// Connect to the database; answer with `Connected`. `files` statement
    /// files are to be applied afterwards.
    Connecting { files: usize },
    /// Send all statements of the file with index `file` over the
    /// connection; answer with `Applied`.
    Applying { file: usize, files: usize },
    /// Nothing is left to do; this is the result of the setup.
    Finished(Result<(), ProvisionError>),
}

/// What the caller has done for the setup.
#[derive(Clone, Copy, Debug, PartialEq, Eq)]
pub enum ProvisionEvent {
    /// The database was reached, or not.
    Connected(bool),
    /// The statements were sent; the database accepted them, or not.
    Applied(bool),
}

impl Provision {
    /// What the setup asks for when the file before the one with index
    /// `file` has been applied, or none is before it.
    pub open spec fn at_file(file: int, files: int) -> Provision {
        if 0 <= file < files {
            Provision::Applying { file: file as usize, files: files as usize }
        } else {
            Provision::Finished(Ok(()))
        }
    }

    /// The state that follows `self` on `event`. An event that does not
    /// answer what the state asks for changes nothing.
    ///
    /// The files are applied in order, each one every time; the first one
    /// that the database refuses ends the setup.
    pub open spec fn step(self, event: ProvisionEvent) -> Provision {
        match (self, event) {
            (Provision::Connecting { files }, ProvisionEvent::Connected(reached)) => if reached {
                Self::at_file(0, files as int)
            } else {
                Provision::Finished(Err(ProvisionError::Connect))
            },
            (Provision::Applying { file, files }, ProvisionEvent::Applied(accepted)) => if accepted {
                Self::at_file(file + 1, files as int)
            } else {
                Provision::Finished(Err(ProvisionError::Apply(file)))
            },
            _ => self,
        }
    }

    /// Begins the setup of the database with `files` statement files.
    pub fn start(files: usize) -> (state: Provision)
        ensures
            state == (Provision::Connecting { files }),
    {
        Provision::Connecting { files }
    }
}

/// What the setup asks for when the file before the one with index `file`
/// has been applied, or none is before it.
fn apply_from(file: usize, files: usize) -> (next: Provision)
    ensures
        next == Provision::at_file(file as int, files as int),
{
    if file < files {
        Provision::Applying { file, files }
    } else {
        Provision::Finished(Ok(()))
    }
}

/// Advances the setup of the database by one event.
pub fn provision_db(state: Provision, event: ProvisionEvent) -> (next: Provision)
    ensures
        next == state.step(event),
{
    match state {
        Provision::Connecting { files } => match event {
            ProvisionEvent::Connected(true) => apply_from(0, files),
            ProvisionEvent::Connected(false) => Provision::Finished(Err(ProvisionError::Connect)),
            ProvisionEvent::Applied(_) => state,
        },
        Provision::Applying { file, files } => match event {
            ProvisionEvent::Applied(true) => if file < files {
                apply_from(file + 1, files)
            } else {
                Provision::Finished(Ok(()))
            },
            ProvisionEvent::Applied(false) => Provision::Finished(
                Err(ProvisionError::Apply(file)),
            ),
            ProvisionEvent::Connected(_) => state,
        },
        Provision::Finished(_) => state,
    }
}

/// How the setup ends once the database is reached, when the files before
/// the one with index `file` have been applied: with the first file from
/// there on that the database refuses, if there is one.
pub open spec fn provision_result_from(
    file: int,
    files: int,
    accepted: spec_fn(int) -> bool,
) -> Result<(), ProvisionError>
    decreases files - file,
{
    if !(0 <= file < files) {
        Ok(())
    } else if !accepted(file) {
        Err(ProvisionError::Apply(file as usize))
    } else {
        provision_result_from(file + 1, files, accepted)
    }
}

/// How the setup with `files` files ends, when the database is `reached`
/// or not and accepts the file with index `i` or not as `accepted(i)` says.
pub open spec fn provision_result(
    files: int,
    reached: bool,
    accepted: spec_fn(int) -> bool,
) -> Result<(), ProvisionError> {
    if reached {
        provision_result_from(0, files, accepted)
    } else {
        Err(ProvisionError::Connect)
    }
}

/// What a caller that does as it is asked answers in `state`. A finished
/// setup asks for nothing; the answer given for it changes nothing.
pub open spec fn provision_answer(
    state: Provision,
    reached: bool,
    accepted: spec_fn(int) -> bool,
) -> ProvisionEvent {
    match state {
        Provision::Connecting { .. } => ProvisionEvent::Connected(reached),
        Provision::Applying { file, .. } => ProvisionEvent::Applied(accepted(file as int)),
        Provision::Finished(_) => ProvisionEvent::Applied(true),
    }
}

/// The states that a setup goes through from `state` on, with a caller that
/// answers as `provision_answer` says, until it has finished or has taken
/// `steps` steps.
pub open spec fn provision_course(
    state: Provision,
    reached: bool,
    accepted: spec_fn(int) -> bool,
    steps: nat,
) -> Seq<Provision>
    decreases steps,
{
    if steps == 0 || state is Finished {
        seq![state]
    } else {
        seq![state] + provision_course(
            state.step(provision_answer(state, reached, accepted)),
            reached,
            accepted,
            (steps - 1) as nat,
        )
    }
}

/// From the file with index `file` on, a setup applies the files in order
/// up to the first one that the database refuses, and ends as
/// `provision_result_from` says.
proof fn lemma_provision_ends_from(
    file: int,
    files: usize,
    accepted: spec_fn(int) -> bool,
    steps: nat,
)
    requires
        0 <= file <= files,
        steps >= files - file,
    ensures
        ({
            let course = provision_course(Provision::at_file(file, files as int), true, accepted, steps);
            &&& course.last() == Provision::Finished(
                provision_result_from(file, files as int, accepted),
            )
            &&& forall|i: int|
                0 <= i < course.len() - 1 ==> #[trigger] course[i] == (Provision::Applying {
                    file: (file + i) as usize,
                    files,
                }) && (i < course.len() - 2 ==> accepted(file + i))
        }),
    decreases files - file,
{
    let state = Provision::at_file(file, files as int);
    let course = provision_course(state, true, accepted, steps);
    if file < files {
        let next = state.step(provision_answer(state, true, accepted));
        let rest = provision_course(next, true, accepted, (steps - 1) as nat);
        assert(course == seq![state] + rest);
        assert(course.last() == rest.last());
        if accepted(file) {
            assert(next == Provision::at_file(file + 1, files as int));
            lemma_provision_ends_from(file + 1, files, accepted, (steps - 1) as nat);
            assert forall|i: int| 0 <= i < course.len() - 1 implies #[trigger] course[i] == (
            Provision::Applying { file: (file + i) as usize, files }) && (i < course.len() - 2
                ==> accepted(file + i)) by {
                if i > 0 {
                    assert(course[i] == rest[i - 1]);
                }
            }
        } else {
            assert(rest == seq![next]);
        }
    }
}

/// A setup fails if the database cannot be reached. Otherwise it applies
/// the files in order, each of them only if the database accepted all that
/// come before it, and ends with the first refusal, or well after the last
/// file.
pub proof fn lemma_provision_ends(
    files: usize,
    reached: bool,
    accepted: spec_fn(int) -> bool,
    steps: nat,
)
    requires
        steps > files,
    ensures
        ({
            let course = provision_course(
                Provision::Connecting { files },
                reached,
                accepted,
                steps,
            );
            &&& course.last() == Provision::Finished(
                provision_result(files as int, reached, accepted),
            )
            &&& forall|i: int|
                1 <= i < course.len() - 1 ==> reached && #[trigger] course[i] == (
                Provision::Applying { file: (i - 1) as usize, files }) && (i < course.len() - 2
                    ==> accepted(i - 1))
        }),
{
    let state = Provision::Connecting { files };
    let course = provision_course(state, reached, accepted, steps);
    let next = state.step(provision_answer(state, reached, accepted));
    let rest = provision_course(next, reached, accepted, (steps - 1) as nat);
    assert(course == seq![state] + rest);
    assert(course.last() == rest.last());
    if reached {
        lemma_provision_ends_from(0, files, accepted, (steps - 1) as nat);
        assert forall|i: int| 1 <= i < course.len() - 1 implies reached && #[trigger] course[i]
            == (Provision::Applying { file: (i - 1) as usize, files }) && (i < course.len() - 2
            ==> accepted(i - 1)) by {
            assert(course[i] == rest[i - 1]);
        }
    } else {
        assert(rest == seq![next]);
    }
}

} // verus!
