//! One run over the centers, as a machine that is told what happened and
//! answers with what to do next.
//!
//! The caller performs each action and hands back its event: the booking
//! data after a fetch, the reading of the answer after a slot search, and
//! `Resume` after everything else. The machine visits the centers in their
//! order and the places of each center in theirs, one request at a time.

use vstd::prelude::*;
use crate::config::{texts_of, Config};
use crate::filter::{
    agenda_id_seq,
    agenda_ids,
    eligible_agendas,
    eligible_motives,
    lemma_eligible_agendas_only,
    motive_id_seq,
    motive_ids,
    primary_practice,
    primary_practice_id,
    select_eligible_agendas,
    select_motives,
};
use crate::model::{Agenda, Availabilities, BookingData, Place};
use crate::params::{booking_url, booking_url_text};
use crate::response::{counted, is_success, reading_of, settle, QueryError};
use crate::tally::{add_total, sum_totals};

verus! {

/// Where a run stands.
#[derive(Debug, Clone, Copy, PartialEq, Eq, Structural)]
pub enum Phase {
    /// Between two centers: the next one is taken on `Resume`.
    PendingCenters,
    /// The booking data of a center has been asked for.
    CheckingCenter,
    /// A slot search for a place has been asked for.
    CheckingPlace,
    /// A place has been dealt with: the next one is taken on `Resume`.
    Aggregating,
    /// The run is over.
    Done,
}

/// What the caller reports to the machine.
#[derive(Debug, PartialEq, Eq)]
pub enum Event {
    /// The run starts, or the last action is done and gave nothing to report.
    Resume,
    /// The booking data of the center that was asked for.
    Fetched(BookingData),
    /// The booking data could not be had.
    FetchFailed,
    /// The reading of the answer to the slot search that was asked for.
    Answered(Result<Availabilities, QueryError>),
}

/// What the machine asks the caller to do.
#[derive(Debug, Clone, PartialEq, Eq)]
pub enum Action {
    /// Fetch the booking data of the center at this position, from this
    /// address, and report `Fetched` or `FetchFailed`.
    Fetch { center: usize, url: String },
    /// The center offers no eligible motive: pause, then resume.
    SkipCenter { center: usize, pause_ms: u64 },
    /// The place has no eligible agenda: resume without a pause.
    SkipPlace { place: usize },
    /// Search the slots of the place at this position and report `Answered`.
    Query { place: usize, visit_motive_ids: Vec<u32>, agenda_ids: Vec<u32>, practice_ids: Vec<u32> },
    /// The place at this position counted `total` slots: pause, then resume.
    Settle { place: usize, total: u32, pause_ms: u64 },
    /// Every place of the center has been dealt with: pause, then resume.
    LeaveCenter { center: usize, pause_ms: u64 },
    /// The run ended with this many slots.
    Finish { total: u32 },
    /// The run ended on a failure.
    Abort,
}

/// An action, with texts and lists as mathematical sequences.
pub enum ActionView {
    Fetch { center: nat, url: Seq<char> },
    SkipCenter { center: nat, pause_ms: u64 },
    SkipPlace { place: nat },
    Query { place: nat, visit_motive_ids: Seq<u32>, agenda_ids: Seq<u32>, practice_ids: Seq<u32> },
    Settle { place: nat, total: u32, pause_ms: u64 },
    LeaveCenter { center: nat, pause_ms: u64 },
    Finish { total: u32 },
    Abort,
}

impl View for Action {
    type V = ActionView;

    open spec fn view(&self) -> ActionView {
        match *self {
            Action::Fetch { center, url } => ActionView::Fetch { center: center as nat, url: url@ },
            Action::SkipCenter { center, pause_ms } => ActionView::SkipCenter {
                center: center as nat,
                pause_ms,
            },
            Action::SkipPlace { place } => ActionView::SkipPlace { place: place as nat },
            Action::Query { place, visit_motive_ids, agenda_ids, practice_ids } => ActionView::Query {
                place: place as nat,
                visit_motive_ids: visit_motive_ids@,
                agenda_ids: agenda_ids@,
                practice_ids: practice_ids@,
            },
            Action::Settle { place, total, pause_ms } => ActionView::Settle {
                place: place as nat,
                total,
                pause_ms,
            },
            Action::LeaveCenter { center, pause_ms } => ActionView::LeaveCenter {
                center: center as nat,
                pause_ms,
            },
            Action::Finish { total } => ActionView::Finish { total },
            Action::Abort => ActionView::Abort,
        }
    }
}

/// The state of a run.
pub struct RunView {
    pub phase: Phase,
    /// The identifiers of the centers, in the order of their visit.
    pub centers: Seq<Seq<char>>,
    pub marker: Seq<char>,
    pub excluded: Seq<char>,
    pub place_pause_ms: u64,
    pub center_pause_ms: u64,
    /// The position of the center in hand, or of the next one.
    pub center: nat,
    /// The places and agendas of the center in hand.
    pub places: Seq<Place>,
    pub agendas: Seq<Agenda>,
    /// The ids of the eligible motives of the center in hand.
    pub motive_ids: Seq<u32>,
    /// The position of the place in hand, or of the next one.
    pub place: nat,
    /// The slots counted so far.
    pub total: u32,
    /// Whether the run ended on a failure.
    pub failed: bool,
}

/// The state before the first event of a run with the given settings.
pub open spec fn initial(config: Config) -> RunView {
    RunView {
        phase: Phase::PendingCenters,
        centers: texts_of(config.centers@),
        marker: config.marker_substring@,
        excluded: config.excluded_substring@,
        place_pause_ms: config.place_pause_ms,
        center_pause_ms: config.center_pause_ms,
        center: 0,
        places: Seq::empty(),
        agendas: Seq::empty(),
        motive_ids: Seq::empty(),
        place: 0,
        total: 0,
        failed: false,
    }
}

/// The positions of a state lie within its lists: while a center is in hand
/// its position is one of the centers, and while a slot search is awaited the
/// place in hand is one of its places.
pub open spec fn well_formed(s: RunView) -> bool {
    &&& s.center <= s.centers.len()
    &&& s.place <= s.places.len()
    &&& (s.phase is CheckingCenter || s.phase is CheckingPlace || s.phase is Aggregating)
        ==> s.center < s.centers.len()
    &&& s.phase is CheckingPlace ==> s.place < s.places.len()
    &&& s.failed ==> s.phase is Done
}

/// The run ends on a failure.
pub open spec fn aborted(s: RunView) -> (RunView, ActionView) {
    (RunView { phase: Phase::Done, failed: true, ..s }, ActionView::Abort)
}

/// The place in hand is taken: past the last place the center is left; a
/// place without an eligible agenda for its primary practice is skipped; for
/// any other place its slots are searched, with every eligible motive of the
/// center, the eligible agendas of the place and its primary practice.
pub open spec fn visited(s: RunView) -> (RunView, ActionView) {
    if s.place >= s.places.len() {
        (
            RunView { phase: Phase::PendingCenters, center: s.center + 1, ..s },
            ActionView::LeaveCenter { center: s.center, pause_ms: s.center_pause_ms },
        )
    } else {
        let practice = primary_practice(s.places[s.place as int].practice_ids@);
        let agendas = eligible_agendas(s.agendas, practice, s.motive_ids);
        if agendas.len() == 0 {
            (
                RunView { phase: Phase::Aggregating, place: s.place + 1, ..s },
                ActionView::SkipPlace { place: s.place },
            )
        } else {
            (
                RunView { phase: Phase::CheckingPlace, ..s },
                ActionView::Query {
                    place: s.place,
                    visit_motive_ids: s.motive_ids,
                    agenda_ids: agenda_id_seq(agendas),
                    practice_ids: seq![practice],
                },
            )
        }
    }
}

/// The booking data of the center in hand has come: a center without an
/// eligible motive is skipped, any other is visited from its first place.
pub open spec fn opened(s: RunView, data: BookingData) -> (RunView, ActionView) {
    let ids = motive_id_seq(eligible_motives(data.visit_motives@, s.marker, s.excluded));
    let with_data = RunView {
        places: data.places@,
        agendas: data.agendas@,
        motive_ids: ids,
        place: 0,
        ..s
    };
    if ids.len() == 0 {
        (
            RunView { phase: Phase::PendingCenters, center: s.center + 1, ..with_data },
            ActionView::SkipCenter { center: s.center, pause_ms: s.center_pause_ms },
        )
    } else {
        visited(with_data)
    }
}

/// The reading of a slot search has come: what it counts is added to the
/// total and the place is settled. A fatal reading ends the run, and so does
/// a total that no longer fits in 32 bits.
pub open spec fn answered(s: RunView, reading: Result<Availabilities, QueryError>) -> (
    RunView,
    ActionView,
) {
    match counted(reading) {
        Some(count) => if s.total + count <= u32::MAX {
            (
                RunView {
                    phase: Phase::Aggregating,
                    place: s.place + 1,
                    total: (s.total + count) as u32,
                    ..s
                },
                ActionView::Settle { place: s.place, total: count, pause_ms: s.place_pause_ms },
            )
        } else {
            aborted(s)
        },
        None => aborted(s),
    }
}

/// The state and the action that follow an event. An event that the phase
/// does not await ends the run; a run that is over stays as it is and
/// answers with its end again.
pub open spec fn next(s: RunView, event: Event) -> (RunView, ActionView) {
    match s.phase {
        Phase::PendingCenters => match event {
            Event::Resume => if s.center < s.centers.len() {
                (
                    RunView { phase: Phase::CheckingCenter, ..s },
                    ActionView::Fetch {
                        center: s.center,
                        url: booking_url_text(s.centers[s.center as int]),
                    },
                )
            } else {
                (RunView { phase: Phase::Done, ..s }, ActionView::Finish { total: s.total })
            },
            _ => aborted(s),
        },
        Phase::CheckingCenter => match event {
            Event::Fetched(data) => opened(s, data),
            _ => aborted(s),
        },
        Phase::CheckingPlace => match event {
            Event::Answered(reading) => answered(s, reading),
            _ => aborted(s),
        },
        Phase::Aggregating => match event {
            Event::Resume => visited(s),
            _ => aborted(s),
        },
        Phase::Done => (
            s,
            if s.failed {
                ActionView::Abort
            } else {
                ActionView::Finish { total: s.total }
            },
        ),
    }
}

/// A run in progress.
pub struct Run {
    phase: Phase,
    centers: Vec<String>,
    marker: String,
    excluded: String,
    place_pause_ms: u64,
    center_pause_ms: u64,
    center: usize,
    data: BookingData,
    motive_ids: Vec<u32>,
    place: usize,
    total: u32,
    failed: bool,
}

impl View for Run {
    type V = RunView;

    closed spec fn view(&self) -> RunView {
        RunView {
            phase: self.phase,
            centers: texts_of(self.centers@),
            marker: self.marker@,
            excluded: self.excluded@,
            place_pause_ms: self.place_pause_ms,
            center_pause_ms: self.center_pause_ms,
            center: self.center as nat,
            places: self.data.places@,
            agendas: self.data.agendas@,
            motive_ids: self.motive_ids@,
            place: self.place as nat,
            total: self.total,
            failed: self.failed,
        }
    }
}

impl Run {
    #[verifier::type_invariant]
    spec fn inv(self) -> bool {
        well_formed(self@)
    }

    /// Starts a run with the given settings.
    pub fn new(config: Config) -> (run: Run)
        ensures
            run@ == initial(config),
            well_formed(run@),
    {
        Run {
            phase: Phase::PendingCenters,
            centers: config.centers,
            marker: config.marker_substring,
            excluded: config.excluded_substring,
            place_pause_ms: config.place_pause_ms,
            center_pause_ms: config.center_pause_ms,
            center: 0,
            data: BookingData {
                visit_motives: Vec::new(),
                places: Vec::new(),
                agendas: Vec::new(),
            },
            motive_ids: Vec::new(),
            place: 0,
            total: 0,
            failed: false,
        }
    }

    /// Where the run stands.
    pub fn phase(&self) -> (phase: Phase)
        ensures
            phase == self@.phase,
    {
        self.phase
    }

    /// The slots counted so far.
    pub fn total(&self) -> (total: u32)
        ensures
            total == self@.total,
    {
        self.total
    }

    /// Whether the run ended on a failure.
    pub fn failed(&self) -> (failed: bool)
        ensures
            failed == self@.failed,
    {
        self.failed
    }

    /// The places of the center in hand.
    pub fn places(&self) -> (places: &Vec<Place>)
        ensures
            places@ == self@.places,
    {
        &self.data.places
    }

    /// Ends the run on a failure.
    fn abort(self) -> (out: (Run, Action))
        ensures
            (out.0@, out.1@) == aborted(self@),
    {
        proof {
            use_type_invariant(&self);
        }
        (Run { phase: Phase::Done, failed: true, ..self }, Action::Abort)
    }

    /// Takes the place in hand: leaves the center, skips the place or asks
    /// for its slot search.
    fn visit(self) -> (out: (Run, Action))
        requires
            self@.center < self@.centers.len(),
            !self@.failed,
        ensures
            (out.0@, out.1@) == visited(self@),
    {
        proof {
            use_type_invariant(&self);
        }
        let place = self.place;
        if place >= self.data.places.len() {
            let center = self.center;
            let pause_ms = self.center_pause_ms;
            let last = self.centers.len() - 1;
            assert(center <= last);
            (
                Run { phase: Phase::PendingCenters, center: center + 1, ..self },
                Action::LeaveCenter { center, pause_ms },
            )
        } else {
            let practice = primary_practice_id(&self.data.places[place]);
            let agendas = select_eligible_agendas(&self.data.agendas, practice, &self.motive_ids);
            if agendas.len() == 0 {
                (
                    Run { phase: Phase::Aggregating, place: place + 1, ..self },
                    Action::SkipPlace { place },
                )
            } else {
                let agenda_ids = agenda_ids(&agendas);
                let visit_motive_ids = self.motive_ids.clone();
                let mut practice_ids: Vec<u32> = Vec::new();
                practice_ids.push(practice);
                proof {
                    assert(visit_motive_ids@ =~= self.motive_ids@);
                    assert(practice_ids@ =~= seq![practice]);
                }
                (
                    Run { phase: Phase::CheckingPlace, ..self },
                    Action::Query { place, visit_motive_ids, agenda_ids, practice_ids },
                )
            }
        }
    }

    /// Takes an event and answers with the state that follows and the action
    /// that the caller performs next.
    pub fn step(self, event: Event) -> (out: (Run, Action))
        ensures
            (out.0@, out.1@) == next(self@, event),
            well_formed(out.0@),
    {
        proof {
            use_type_invariant(&self);
        }
        let n_centers = self.centers.len();
        let n_places = self.data.places.len();
        assert(self.center <= n_centers && self.place <= n_places);
        let out = match self.phase {
            Phase::PendingCenters => match event {
                Event::Resume => {
                    let center = self.center;
                    if center < n_centers {
                        let url = booking_url(self.centers[center].as_str());
                        (Run { phase: Phase::CheckingCenter, ..self }, Action::Fetch { center, url })
                    } else {
                        let total = self.total;
                        (Run { phase: Phase::Done, ..self }, Action::Finish { total })
                    }
                },
                _ => self.abort(),
            },
            Phase::CheckingCenter => match event {
                Event::Fetched(data) => {
                    let motives = select_motives(
                        &data.visit_motives,
                        self.marker.as_str(),
                        self.excluded.as_str(),
                    );
                    let ids = motive_ids(&motives);
                    let center = self.center;
                    let pause_ms = self.center_pause_ms;
                    if ids.len() == 0 {
                        (
                            Run {
                                phase: Phase::PendingCenters,
                                center: center + 1,
                                data,
                                motive_ids: ids,
                                place: 0,
                                ..self
                            },
                            Action::SkipCenter { center, pause_ms },
                        )
                    } else {
                        let with_data = Run { data, motive_ids: ids, place: 0, ..self };
                        with_data.visit()
                    }
                },
                _ => self.abort(),
            },
            Phase::CheckingPlace => match event {
                Event::Answered(reading) => {
                    match settle(reading) {
                        Ok(found) => match add_total(self.total, found.total) {
                            Some(total) => {
                                let place = self.place;
                                let pause_ms = self.place_pause_ms;
                                (
                                    Run {
                                        phase: Phase::Aggregating,
                                        place: place + 1,
                                        total,
                                        ..self
                                    },
                                    Action::Settle { place, total: found.total, pause_ms },
                                )
                            },
                            None => self.abort(),
                        },
                        Err(_) => self.abort(),
                    }
                },
                _ => self.abort(),
            },
            Phase::Aggregating => match event {
                Event::Resume => self.visit(),
                _ => self.abort(),
            },
            Phase::Done => {
                let action = if self.failed {
                    Action::Abort
                } else {
                    Action::Finish { total: self.total }
                };
                (self, action)
            },
        };
        proof {
            use_type_invariant(&out.0);
        }
        out
    }
}

/// How a run ended.
#[derive(Debug, Clone, Copy, PartialEq, Eq, Structural)]
pub enum Outcome {
    /// This many slots were found, at least one.
    Found(u32),
    /// Every search was made and no slot was found.
    NothingFound,
    /// The run ended on a failure.
    Failed,
}

/// The outcome of a state: none while the run goes on.
pub open spec fn outcome_of(s: RunView) -> Option<Outcome> {
    if !(s.phase is Done) {
        None
    } else if s.failed {
        Some(Outcome::Failed)
    } else if s.total == 0 {
        Some(Outcome::NothingFound)
    } else {
        Some(Outcome::Found(s.total))
    }
}

/// The exit status that stands for an outcome: 0 for slots found, 2 for
/// none found and 1 for a failure.
pub open spec fn exit_status_of(outcome: Outcome) -> i32 {
    match outcome {
        Outcome::Found(_) => 0i32,
        Outcome::NothingFound => 2i32,
        Outcome::Failed => 1i32,
    }
}

impl Outcome {
    /// The exit status by which a process signals this outcome.
    pub fn exit_status(&self) -> (status: i32)
        ensures
            status == exit_status_of(*self),
    {
        match self {
            Outcome::Found(_) => 0,
            Outcome::NothingFound => 2,
            Outcome::Failed => 1,
        }
    }
}

impl Run {
    /// How the run ended, once it is over.
    pub fn outcome(&self) -> (outcome: Option<Outcome>)
        ensures
            outcome == outcome_of(self@),
    {
        match self.phase {
            Phase::Done => {
                if self.failed {
                    Some(Outcome::Failed)
                } else if self.total == 0 {
                    Some(Outcome::NothingFound)
                } else {
                    Some(Outcome::Found(self.total))
                }
            },
            _ => None,
        }
    }
}

/// Whether an action is told to the user: slots that were found and the end
/// of the run always, a place or a center that gave nothing only on request,
/// the requests and pauses themselves never.
pub open spec fn is_reported(action: ActionView, verbose: bool) -> bool {
    match action {
        ActionView::Settle { total, .. } => total > 0 || verbose,
        ActionView::SkipCenter { .. } => verbose,
        ActionView::SkipPlace { .. } => verbose,
        ActionView::Finish { .. } => true,
        ActionView::Abort => true,
        _ => false,
    }
}

impl Action {
    /// Tests whether this action is told to the user.
    pub fn reported(&self, verbose: bool) -> (told: bool)
        ensures
            told == is_reported(self@, verbose),
    {
        match self {
            Action::Settle { total, .. } => *total > 0 || verbose,
            Action::SkipCenter { .. } => verbose,
            Action::SkipPlace { .. } => verbose,
            Action::Finish { .. } => true,
            Action::Abort => true,
            _ => false,
        }
    }
}

/// The state after a sequence of events, taken one after the other.
pub open spec fn run_after(s: RunView, events: Seq<Event>) -> RunView
    decreases events.len(),
{
    if events.len() == 0 {
        s
    } else {
        next(run_after(s, events.drop_last()), events.last()).0
    }
}

/// The counts of the places that a sequence of events settles, in the order
/// in which they are settled.
pub open spec fn counts_of(s: RunView, events: Seq<Event>) -> Seq<u32>
    decreases events.len(),
{
    if events.len() == 0 {
        Seq::empty()
    } else {
        let earlier = counts_of(s, events.drop_last());
        match next(run_after(s, events.drop_last()), events.last()).1 {
            ActionView::Settle { total, .. } => earlier.push(total),
            _ => earlier,
        }
    }
}

/// Every step leaves the positions of the state within its lists.
pub proof fn lemma_next_keeps_well_formed(s: RunView, event: Event)
    requires
        well_formed(s),
    ensures
        well_formed(next(s, event).0),
{
}

/// Whatever the events are, the total of a run is the total it started with
/// plus the sum of the counts of the places settled since: nothing else
/// changes it, neither a skipped place or center nor a failure.
pub proof fn lemma_total_is_sum_of_counts(s: RunView, events: Seq<Event>)
    requires
        well_formed(s),
    ensures
        well_formed(run_after(s, events)),
        run_after(s, events).total == s.total + sum_totals(counts_of(s, events)),
    decreases events.len(),
{
    if events.len() > 0 {
        lemma_total_is_sum_of_counts(s, events.drop_last());
        let before = run_after(s, events.drop_last());
        let earlier = counts_of(s, events.drop_last());
        lemma_next_keeps_well_formed(before, events.last());
        match next(before, events.last()).1 {
            ActionView::Settle { total, .. } => {
                assert(earlier.push(total).drop_last() =~= earlier);
            },
            _ => {},
        }
    }
}

/// A place that lists no practice is skipped without a slot search, where
/// no agenda belongs to practice 0: when it is taken the total stays, the
/// run does not fail and the next place is in hand.
pub proof fn lemma_place_without_practice_is_skipped(s: RunView)
    requires
        s.place < s.places.len(),
        s.places[s.place as int].practice_ids@.len() == 0,
        forall|i: int| 0 <= i < s.agendas.len() ==> (#[trigger] s.agendas[i]).practice_id != 0,
    ensures
        visited(s).1 == (ActionView::SkipPlace { place: s.place }),
        visited(s).0 == (RunView { phase: Phase::Aggregating, place: s.place + 1, ..s }),
        s.phase is Aggregating ==> next(s, Event::Resume) == visited(s),
{
    let kept = eligible_agendas(s.agendas, 0, s.motive_ids);
    lemma_eligible_agendas_only(s.agendas, 0, s.motive_ids);
    if kept.len() > 0 {
        assert(s.agendas.contains(kept[0]));
    }
}

/// A place none of whose agendas is eligible for its primary practice is
/// skipped: when it is taken the total stays, the run does not fail and the
/// next place is in hand.
pub proof fn lemma_place_without_agendas_is_skipped(s: RunView)
    requires
        s.place < s.places.len(),
        eligible_agendas(
            s.agendas,
            primary_practice(s.places[s.place as int].practice_ids@),
            s.motive_ids,
        ).len() == 0,
    ensures
        visited(s).1 == (ActionView::SkipPlace { place: s.place }),
        visited(s).0 == (RunView { phase: Phase::Aggregating, place: s.place + 1, ..s }),
        s.phase is Aggregating ==> next(s, Event::Resume) == visited(s),
{
}

/// An answer with a status outside the 2xx range never ends the run and
/// adds nothing to the total, whatever its body: the place is settled with
/// a count of zero.
pub proof fn lemma_rejection_never_aborts(s: RunView, status: u16, body: Option<Availabilities>)
    requires
        well_formed(s),
        s.phase is CheckingPlace,
        !is_success(status),
    ensures
        next(s, Event::Answered(reading_of(status, body))).1 == (ActionView::Settle {
            place: s.place,
            total: 0,
            pause_ms: s.place_pause_ms,
        }),
        next(s, Event::Answered(reading_of(status, body))).0.total == s.total,
        next(s, Event::Answered(reading_of(status, body))).0.phase is Aggregating,
        !next(s, Event::Answered(reading_of(status, body))).0.failed,
{
}

} // verus!
