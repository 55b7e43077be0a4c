//! The refresh of the cached extract, as a state machine. The caller reads,
//! downloads and renames files: it does what the state asks for and hands
//! the answer back as an event.

use vstd::prelude::*;

verus! {

/// What a refresh found.
#[derive(Clone, Copy, Debug, PartialEq, Eq, Structural)]
pub enum DataStatus {
    /// The published extract is the one that is active already.
    NothingToIndex,
    /// A new extract has been made the active one.
    NeedsIndexing,
}

/// Where a refresh failed.
#[derive(Clone, Copy, Debug, PartialEq, Eq, Structural)]
pub enum RefreshError {
    /// The published checksum could not be downloaded or read.
    ChecksumFetch,
    /// The published extract could not be downloaded.
    ExtractFetch,
    /// The downloaded extract could not be made the active one.
    ExtractActivation,
    /// The downloaded checksum could not be made the active one.
    ChecksumActivation,
}

/// A file of the working directory.
#[derive(Clone, Copy, Debug, PartialEq, Eq, Structural)]
pub enum CacheFile {
    /// The extract that is imported.
    ActiveExtract,
    /// The checksum that was published with the active extract.
    ActiveChecksum,
    /// An extract that is being downloaded.
    NewExtract,
    /// The checksum that was downloaded last.
    NewChecksum,
    /// Scratch space of the import tool, beside the active extract.
    FlatNodes,
}

impl CacheFile {
    /// The name of the file inside the working directory.
    pub open spec fn spec_file_name(self) -> Seq<char> {
        match self {
            CacheFile::ActiveExtract => "active.pbf"@,
            CacheFile::ActiveChecksum => "active.md5"@,
            CacheFile::NewExtract => "new.pbf"@,
            CacheFile::NewChecksum => "new.md5"@,
            CacheFile::FlatNodes => "active.flat"@,
        }
    }

    /// The name of the file inside the working directory.
    pub fn file_name(self) -> (name: &'static str)
        ensures
            name@ == self.spec_file_name(),
    {
        match self {
            CacheFile::ActiveExtract => "active.pbf",
            CacheFile::ActiveChecksum => "active.md5",
            CacheFile::NewExtract => "new.pbf",
            CacheFile::NewChecksum => "new.md5",
            CacheFile::FlatNodes => "active.flat",
        }
    }
}

/// What a refresh asks its caller to do next.
#[derive(Clone, Copy, Debug, PartialEq, Eq)]
pub enum RefreshPhase {
    /// Read the active checksum; answer with `Checksum`, `None` if it
    /// cannot be read.
    ReadingRecorded,
    /// Download the published checksum to the new checksum and read it;
    /// answer with `Checksum`, `None` if either fails.
    FetchingChecksum,
    /// Download the published extract to the new extract; answer with
    /// `Done`.
    FetchingExtract,
    /// Rename the new extract to the active extract; answer with `Done`.
    ActivatingExtract,
    /// Rename the new checksum to the active checksum; answer with `Done`.
    ActivatingChecksum,
    /// Nothing is left to do; this is the result of the refresh.
    Finished(Result<DataStatus, RefreshError>),
}

/// What the caller has done for the refresh.
#[derive(Debug)]
pub enum RefreshEvent {
    /// The text of the checksum that was asked for, if it could be had.
    Checksum(Option<String>),
    /// What was asked for has been done, or could not be done.
    Done(bool),
}

/// A `RefreshEvent` as plain text.
pub enum RefreshEventView {
    Checksum(Option<Seq<char>>),
    Done(bool),
}

impl View for RefreshEvent {
    type V = RefreshEventView;

    open spec fn view(&self) -> RefreshEventView {
        match self {
            RefreshEvent::Checksum(Some(text)) => RefreshEventView::Checksum(Some(text@)),
            RefreshEvent::Checksum(None) => RefreshEventView::Checksum(None),
            RefreshEvent::Done(done) => RefreshEventView::Done(*done),
        }
    }
}

/// A refresh under way.
#[derive(Debug)]
pub struct Refresh {
    url: String,
    recorded: Option<String>,
    phase: RefreshPhase,
}

/// A `Refresh` as plain text.
pub struct RefreshView {
    /// Where the extract is published.
    pub url: Seq<char>,
    /// The checksum that the published one is held against, if there is
    /// one.
    pub recorded: Option<Seq<char>>,
    /// What the refresh asks for.
    pub phase: RefreshPhase,
}

impl View for Refresh {
    type V = RefreshView;

    closed spec fn view(&self) -> RefreshView {
        RefreshView {
            url: self.url@,
            recorded: match self.recorded {
                Some(text) => Some(text@),
                None => None,
            },
            phase: self.phase,
        }
    }
}

/// Where the checksum of the extract at `url` is published.
pub open spec fn checksum_url_of(url: Seq<char>) -> Seq<char> {
    url + ".md5"@
}

impl RefreshView {
    /// The refresh of the extract published at `url` before anything has
    /// been done. No checksum is recorded yet. A forced refresh does not
    /// read the active checksum either: it holds the published checksum
    /// against nothing.
    pub open spec fn start(url: Seq<char>, force: bool) -> RefreshView {
        RefreshView {
            url,
            recorded: None,
            phase: if force {
                RefreshPhase::FetchingChecksum
            } else {
                RefreshPhase::ReadingRecorded
            },
        }
    }

    /// The refresh in the same place with another phase.
    pub open spec fn at(self, phase: RefreshPhase) -> RefreshView {
        RefreshView { phase, ..self }
    }

    /// The state that follows `self` on `event`. An event that does not
    /// answer what the state asks for changes nothing.
    ///
    /// An active checksum that cannot be read is no checksum. There is
    /// nothing new exactly if a checksum is recorded and the published one
    /// is the same text, the empty text included. Otherwise the extract is
    /// downloaded, and activated before its checksum. Whatever fails ends the
    /// refresh.
    pub open spec fn step(self, event: RefreshEventView) -> RefreshView {
        match (self.phase, event) {
            (RefreshPhase::ReadingRecorded, RefreshEventView::Checksum(text)) => RefreshView {
                recorded: text,
                phase: RefreshPhase::FetchingChecksum,
                ..self
            },
            (RefreshPhase::FetchingChecksum, RefreshEventView::Checksum(text)) => match text {
                None => self.at(RefreshPhase::Finished(Err(RefreshError::ChecksumFetch))),
                Some(text) => if self.recorded == Some(text) {
                    self.at(RefreshPhase::Finished(Ok(DataStatus::NothingToIndex)))
                } else {
                    self.at(RefreshPhase::FetchingExtract)
                },
            },
            (RefreshPhase::FetchingExtract, RefreshEventView::Done(done)) => if done {
                self.at(RefreshPhase::ActivatingExtract)
            } else {
                self.at(RefreshPhase::Finished(Err(RefreshError::ExtractFetch)))
            },
            (RefreshPhase::ActivatingExtract, RefreshEventView::Done(done)) => if done {
                self.at(RefreshPhase::ActivatingChecksum)
            } else {
                self.at(RefreshPhase::Finished(Err(RefreshError::ExtractActivation)))
            },
            (RefreshPhase::ActivatingChecksum, RefreshEventView::Done(done)) => if done {
                self.at(RefreshPhase::Finished(Ok(DataStatus::NeedsIndexing)))
            } else {
                self.at(RefreshPhase::Finished(Err(RefreshError::ChecksumActivation)))
            },
            _ => self,
        }
    }
}

impl Refresh {
    /// Begins the refresh of the extract published at `url`.
    pub fn start(url: &str, force: bool) -> (state: Refresh)
        ensures
            state@ == RefreshView::start(url@, force),
    {
        Refresh {
            url: String::from_str(url),
            recorded: None,
            phase: if force {
                RefreshPhase::FetchingChecksum
            } else {
                RefreshPhase::ReadingRecorded
            },
        }
    }

    /// What the refresh asks for.
    pub fn phase(&self) -> (phase: RefreshPhase)
        ensures
            phase == self@.phase,
    {
        self.phase
    }

    /// Where the extract is published.
    pub fn extract_url(&self) -> (url: &str)
        ensures
            url@ == self@.url,
    {
        self.url.as_str()
    }

    /// Where the checksum of the extract is published.
    pub fn checksum_url(&self) -> (url: String)
        ensures
            url@ == checksum_url_of(self@.url),
    {
        let mut url = self.url.clone();
        url.append(".md5");
        url
    }

    /// The refresh in the same place with another phase.
    fn at(self, phase: RefreshPhase) -> (state: Refresh)
        ensures
            state@ == self@.at(phase),
    {
        Refresh { url: self.url, recorded: self.recorded, phase }
    }
}

/// Advances the refresh of the cached extract by one event.
pub fn refresh_pbf(state: Refresh, event: RefreshEvent) -> (next: Refresh)
    ensures
        next@ == state@.step(event@),
{
    match state.phase {
        RefreshPhase::ReadingRecorded => match event {
            RefreshEvent::Checksum(text) => Refresh {
                url: state.url,
                recorded: text,
                phase: RefreshPhase::FetchingChecksum,
            },
            RefreshEvent::Done(_) => state,
        },
        RefreshPhase::FetchingChecksum => match event {
            RefreshEvent::Checksum(None) => state.at(
                RefreshPhase::Finished(Err(RefreshError::ChecksumFetch)),
            ),
            RefreshEvent::Checksum(Some(text)) => {
                let unchanged = match &state.recorded {
                    Some(recorded) => text.eq(recorded),
                    None => false,
                };
                if unchanged {
                    state.at(RefreshPhase::Finished(Ok(DataStatus::NothingToIndex)))
                } else {
                    state.at(RefreshPhase::FetchingExtract)
                }
            },
            RefreshEvent::Done(_) => state,
        },
        RefreshPhase::FetchingExtract => match event {
            RefreshEvent::Done(true) => state.at(RefreshPhase::ActivatingExtract),
            RefreshEvent::Done(false) => state.at(
                RefreshPhase::Finished(Err(RefreshError::ExtractFetch)),
            ),
            RefreshEvent::Checksum(_) => state,
        },
        RefreshPhase::ActivatingExtract => match event {
            RefreshEvent::Done(true) => state.at(RefreshPhase::ActivatingChecksum),
            RefreshEvent::Done(false) => state.at(
                RefreshPhase::Finished(Err(RefreshError::ExtractActivation)),
            ),
            RefreshEvent::Checksum(_) => state,
        },
        RefreshPhase::ActivatingChecksum => match event {
            RefreshEvent::Done(true) => state.at(
                RefreshPhase::Finished(Ok(DataStatus::NeedsIndexing)),
            ),
            RefreshEvent::Done(false) => state.at(
                RefreshPhase::Finished(Err(RefreshError::ChecksumActivation)),
            ),
            RefreshEvent::Checksum(_) => state,
        },
        RefreshPhase::Finished(_) => state,
    }
}

/// The checksum that the published one is held against: the stored one,
/// or none if the refresh is forced or nothing is stored.
pub open spec fn recorded_checksum(force: bool, stored: Option<Seq<char>>) -> Option<Seq<char>> {
    if force {
        None
    } else {
        stored
    }
}

/// What a refresh finds when the checksum `published` can be had: nothing
/// new exactly if it is the recorded checksum.
pub open spec fn refresh_decision(
    force: bool,
    stored: Option<Seq<char>>,
    published: Seq<char>,
) -> DataStatus {
    if recorded_checksum(force, stored) == Some(published) {
        DataStatus::NothingToIndex
    } else {
        DataStatus::NeedsIndexing
    }
}

/// What the caller of a refresh meets: the stored checksum if there is a
/// readable one, the published checksum if it can be had, and whether the
/// download and each of the two renames work.
pub struct RefreshWorld {
    pub stored: Option<Seq<char>>,
    pub published: Option<Seq<char>>,
    pub downloads: bool,
    pub activates_extract: bool,
    pub activates_checksum: bool,
}

/// How a refresh ends in `world`.
pub open spec fn refresh_result(force: bool, world: RefreshWorld) -> Result<
    DataStatus,
    RefreshError,
> {
    match world.published {
        None => Err(RefreshError::ChecksumFetch),
        Some(published) => if refresh_decision(force, world.stored, published)
            == DataStatus::NothingToIndex {
            Ok(DataStatus::NothingToIndex)
        } else if !world.downloads {
            Err(RefreshError::ExtractFetch)
        } else if !world.activates_extract {
            Err(RefreshError::ExtractActivation)
        } else if !world.activates_checksum {
            Err(RefreshError::ChecksumActivation)
        } else {
            Ok(DataStatus::NeedsIndexing)
        },
    }
}

/// What a caller that does as it is asked answers in `state`, in `world`. A
/// finished refresh asks for nothing; the answer given for it changes
/// nothing.
pub open spec fn refresh_answer(state: RefreshView, world: RefreshWorld) -> RefreshEventView {
    match state.phase {
        RefreshPhase::ReadingRecorded => RefreshEventView::Checksum(world.stored),
        RefreshPhase::FetchingChecksum => RefreshEventView::Checksum(world.published),
        RefreshPhase::FetchingExtract => RefreshEventView::Done(world.downloads),
        RefreshPhase::ActivatingExtract => RefreshEventView::Done(world.activates_extract),
        RefreshPhase::ActivatingChecksum => RefreshEventView::Done(world.activates_checksum),
        RefreshPhase::Finished(_) => RefreshEventView::Done(true),
    }
}

/// The phases that a refresh goes through from `state` on, with a caller
/// that answers as `refresh_answer` says, until it has finished or has
/// taken `steps` steps.
pub open spec fn refresh_course(state: RefreshView, world: RefreshWorld, steps: nat) -> Seq<
    RefreshPhase,
>
    decreases steps,
{
    if steps == 0 || state.phase is Finished {
        seq![state.phase]
    } else {
        seq![state.phase] + refresh_course(
            state.step(refresh_answer(state, world)),
            world,
            (steps - 1) as nat,
        )
    }
}

/// A refresh ends as `refresh_result` says, after five steps at most. Once
/// it has the published checksum, it asks for the download exactly if it is
/// forced or that checksum differs from the stored one. It asks for a rename
/// only after the download has worked, and for the rename of the checksum
/// only after that of the extract has worked.
pub proof fn lemma_refresh_ends(url: Seq<char>, force: bool, world: RefreshWorld, steps: nat)
    requires
        steps >= 5,
    ensures
        ({
            let course = refresh_course(RefreshView::start(url, force), world, steps);
            let download = fetch_move(force) + 1;
            &&& course.last() == RefreshPhase::Finished(refresh_result(force, world))
            &&& world.published matches Some(published) ==> ((force || world.stored != Some(
                published,
            )) <==> course.len() > download + 1 && course[download]
                == RefreshPhase::FetchingExtract)
            &&& forall|i: int|
                0 < i < course.len() && #[trigger] course[i] == RefreshPhase::ActivatingExtract
                    ==> world.downloads && course[i - 1] == RefreshPhase::FetchingExtract
            &&& forall|i: int|
                0 < i < course.len() && #[trigger] course[i] == RefreshPhase::ActivatingChecksum
                    ==> world.activates_extract && course[i - 1]
                    == RefreshPhase::ActivatingExtract
            &&& course[0] != RefreshPhase::ActivatingExtract
            &&& course[0] != RefreshPhase::ActivatingChecksum
        }),
{
    reveal_with_fuel(refresh_course, 7);
}

/// A refresh finds new data exactly if it is forced or the published
/// checksum differs from the stored one; without a stored checksum every
/// published one differs. Unforced and with the same checksum it finds
/// nothing new.
pub proof fn lemma_refresh_iff_changed_or_forced(
    force: bool,
    stored: Option<Seq<char>>,
    published: Seq<char>,
)
    ensures
        refresh_decision(force, stored, published) == DataStatus::NeedsIndexing <==> (force
            || stored != Some(published)),
        refresh_decision(force, stored, published) == DataStatus::NothingToIndex <==> (!force
            && stored == Some(published)),
{
}

/// What the working directory holds, as far as a refresh is concerned:
/// the content of each of its four files, `None` where there is no file.
pub struct CacheFiles {
    pub active_extract: Option<Seq<u8>>,
    pub active_checksum: Option<Seq<char>>,
    pub new_extract: Option<Seq<u8>>,
    pub new_checksum: Option<Seq<char>>,
}

/// Whether a caller that does what `state` asks for may answer with `event`
/// and leave the files as `after`, starting from the files `before`.
///
/// Reading changes nothing, and what was read is what the file holds. A
/// download writes to its own file only, whether it works or not, and leaves
/// there what it reports. A rename that works moves the content; one that
/// fails changes nothing. A finished refresh asks for nothing.
pub open spec fn refresh_performed(
    state: RefreshView,
    before: CacheFiles,
    event: RefreshEventView,
    after: CacheFiles,
) -> bool {
    match state.phase {
        RefreshPhase::ReadingRecorded => {
            &&& event matches RefreshEventView::Checksum(text)
            &&& text is Some ==> text == before.active_checksum
            &&& after == before
        },
        RefreshPhase::FetchingChecksum => {
            &&& event matches RefreshEventView::Checksum(text)
            &&& text is Some ==> text == after.new_checksum
            &&& after == CacheFiles { new_checksum: after.new_checksum, ..before }
        },
        RefreshPhase::FetchingExtract => {
            &&& event matches RefreshEventView::Done(done)
            &&& done ==> after.new_extract is Some
            &&& after == CacheFiles { new_extract: after.new_extract, ..before }
        },
        RefreshPhase::ActivatingExtract => {
            &&& event matches RefreshEventView::Done(done)
            &&& done ==> before.new_extract is Some && after == CacheFiles {
                active_extract: before.new_extract,
                new_extract: None,
                ..before
            }
            &&& !done ==> after == before
        },
        RefreshPhase::ActivatingChecksum => {
            &&& event matches RefreshEventView::Done(done)
            &&& done ==> before.new_checksum is Some && after == CacheFiles {
                active_checksum: before.new_checksum,
                new_checksum: None,
                ..before
            }
            &&& !done ==> after == before
        },
        RefreshPhase::Finished(_) => false,
    }
}

/// Whether `moves` is what a caller may do for a refresh in `state` with
/// the files `files`: each move is an answer and the files it leaves.
pub open spec fn refresh_follows(
    state: RefreshView,
    files: CacheFiles,
    moves: Seq<(RefreshEventView, CacheFiles)>,
) -> bool
    decreases moves.len(),
{
    moves.len() > 0 ==> {
        &&& refresh_performed(state, files, moves[0].0, moves[0].1)
        &&& refresh_follows(state.step(moves[0].0), moves[0].1, moves.drop_first())
    }
}

/// The state of a refresh after `moves`.
pub open spec fn refresh_after(
    state: RefreshView,
    moves: Seq<(RefreshEventView, CacheFiles)>,
) -> RefreshView
    decreases moves.len(),
{
    if moves.len() == 0 {
        state
    } else {
        refresh_after(state.step(moves[0].0), moves.drop_first())
    }
}

/// The files after `moves`.
pub open spec fn files_after(
    files: CacheFiles,
    moves: Seq<(RefreshEventView, CacheFiles)>,
) -> CacheFiles {
    if moves.len() == 0 {
        files
    } else {
        moves.last().1
    }
}

/// What holds of the files `now` while a refresh is in `state`, when they
/// were `origin` as it began. A recorded checksum is the one that was active
/// at the beginning. The active files are untouched until the renames. A new
/// extract is downloaded and activated only beside a new checksum that is
/// not the recorded one.
pub open spec fn refresh_keeps(state: RefreshView, origin: CacheFiles, now: CacheFiles) -> bool {
    let untouched = now.active_extract == origin.active_extract && now.active_checksum
        == origin.active_checksum;
    let staged = now.new_checksum is Some && now.new_checksum != state.recorded;
    &&& state.recorded is Some ==> state.recorded == origin.active_checksum
    &&& match state.phase {
        RefreshPhase::ReadingRecorded => untouched && state.recorded is None,
        RefreshPhase::FetchingChecksum => untouched,
        RefreshPhase::FetchingExtract => untouched && staged,
        RefreshPhase::ActivatingExtract => untouched && staged && now.new_extract is Some,
        RefreshPhase::ActivatingChecksum => {
            &&& now.active_checksum == origin.active_checksum
            &&& now.active_extract is Some
            &&& staged
        },
        RefreshPhase::Finished(Ok(DataStatus::NothingToIndex)) => untouched,
        RefreshPhase::Finished(Ok(DataStatus::NeedsIndexing)) => {
            &&& now.active_extract is Some
            &&& now.active_checksum is Some
            &&& now.active_checksum != state.recorded
        },
        RefreshPhase::Finished(Err(RefreshError::ChecksumActivation)) => {
            &&& now.active_checksum == origin.active_checksum
            &&& now.active_extract is Some
            &&& staged
        },
        RefreshPhase::Finished(Err(_)) => untouched,
    }
}

/// `refresh_keeps` holds after every move that a caller may make.
proof fn lemma_refresh_keeps_step(
    state: RefreshView,
    origin: CacheFiles,
    moves: Seq<(RefreshEventView, CacheFiles)>,
    files: CacheFiles,
)
    requires
        refresh_keeps(state, origin, files),
        refresh_follows(state, files, moves),
    ensures
        refresh_keeps(refresh_after(state, moves), origin, files_after(files, moves)),
    decreases moves.len(),
{
    if moves.len() > 0 {
        let rest = moves.drop_first();
        lemma_refresh_keeps_step(state.step(moves[0].0), origin, rest, moves[0].1);
        if rest.len() > 0 {
            assert(rest.last() == moves.last());
        }
    }
}

/// Whatever a caller meets while it does what a refresh asks for, a refresh
/// that fails before the renames, or that finds nothing new, leaves the
/// active extract and the active checksum as they were. One that fails
/// between the two renames leaves the old checksum beside the new extract;
/// if that checksum had been read as recorded, it differs from the one that
/// was fetched, which still lies in the new checksum.
pub proof fn lemma_refresh_keeps_active_files(
    url: Seq<char>,
    force: bool,
    origin: CacheFiles,
    moves: Seq<(RefreshEventView, CacheFiles)>,
)
    requires
        refresh_follows(RefreshView::start(url, force), origin, moves),
    ensures
        refresh_keeps(
            refresh_after(RefreshView::start(url, force), moves),
            origin,
            files_after(origin, moves),
        ),
        ({
            let end = refresh_after(RefreshView::start(url, force), moves);
            let files = files_after(origin, moves);
            &&& end.phase matches RefreshPhase::Finished(Err(error)) ==> files.active_checksum
                == origin.active_checksum && (error != RefreshError::ChecksumActivation
                ==> files.active_extract == origin.active_extract)
            &&& end.phase == RefreshPhase::Finished(Err(RefreshError::ChecksumActivation))
                ==> files.active_extract is Some && files.new_checksum is Some && (
            end.recorded is Some ==> files.active_checksum != files.new_checksum)
            &&& end.phase == RefreshPhase::Finished(Ok(DataStatus::NothingToIndex))
                ==> files.active_checksum == origin.active_checksum && files.active_extract
                == origin.active_extract
        }),
{
    lemma_refresh_keeps_step(RefreshView::start(url, force), origin, moves, origin);
}

/// The place in the moves of a refresh at which the published checksum is
/// answered: the first, or the second if the recorded one is read first.
pub open spec fn fetch_move(force: bool) -> int {
    if force {
        0
    } else {
        1
    }
}

/// A refresh that succeeds with new data has taken four moves from the
/// fetch of the checksum on. It leaves as the active checksum the text that
/// was answered to that fetch, and as the active extract what the download
/// left in the new extract. Forced or not, that text is not the checksum
/// that the refresh had read as recorded.
pub proof fn lemma_refresh_activates_what_it_fetched(
    url: Seq<char>,
    force: bool,
    origin: CacheFiles,
    moves: Seq<(RefreshEventView, CacheFiles)>,
)
    requires
        refresh_follows(RefreshView::start(url, force), origin, moves),
        refresh_after(RefreshView::start(url, force), moves).phase == RefreshPhase::Finished(
            Ok(DataStatus::NeedsIndexing),
        ),
    ensures
        ({
            let fetch = fetch_move(force);
            let files = files_after(origin, moves);
            &&& moves.len() == fetch + 4
            &&& files.active_checksum is Some
            &&& moves[fetch].0 == RefreshEventView::Checksum(files.active_checksum)
            &&& files.active_extract is Some
            &&& files.active_extract == moves[fetch + 1].1.new_extract
            &&& !force ==> moves[0].0 != RefreshEventView::Checksum(files.active_checksum)
        }),
{
    reveal_with_fuel(refresh_follows, 7);
    reveal_with_fuel(refresh_after, 7);
}

} // verus!
