use crate::date::Date;
use crate::fractal::Fractal;
use crate::instab::Instability;
use crate::set::Daily;
use crate::set::DailyOrCm;
use crate::set::DailyView;
use crate::set::Instabs;
use crate::set::RotationSet;
use crate::set::RotationView;
use crate::set::SlotView;
use vstd::prelude::*;
use vstd::string::StringSliceAdditionalSpecFns;

verus! {

/// Number of days in the schedule.
pub const SCHEDULE_DAYS: usize = 366;

/// Length of the heading line of the schedule text, which is skipped.
pub const HEADER_LEN: usize = 30;

/// Length of the date label that starts each record, which is skipped.
pub const DATE_LABEL_LEN: usize = 6;

/// The byte `"`, which opens a rotating daily.
pub const QUOTE: u8 = 34;

/// The byte `/`, which stands before a second set of instabilities.
pub const SLASH: u8 = 47;

/// The byte `0`.
pub const DIGIT_ZERO: u8 = 48;

/// The byte `9`.
pub const DIGIT_NINE: u8 = 57;

/// Whether a byte is a decimal digit.
pub open spec fn is_digit(b: u8) -> bool {
    48 <= b <= 57
}

/// A number of one or two digits at `pos`, with the position after it. The
/// byte after the first digit must exist; it is taken as a second digit
/// exactly if it is one.
pub open spec fn spec_number(s: Seq<u8>, pos: int) -> Option<(u8, int)> {
    if 0 <= pos && pos + 1 < s.len() && is_digit(s[pos]) {
        let first = s[pos] - 48;
        let next = s[pos + 1];
        if is_digit(next) {
            Some(((first * 10 + (next - 48)) as u8, pos + 2))
        } else {
            Some((first as u8, pos + 1))
        }
    } else {
        None
    }
}

/// An instability at `pos`: a number that is the code of one.
pub open spec fn spec_instab(s: Seq<u8>, pos: int) -> Option<(Instability, int)> {
    match spec_number(s, pos) {
        Some((n, next)) => match Instability::spec_from_u8(n) {
            Some(i) => Some((i, next)),
            None => None,
        },
        None => None,
    }
}

/// Three instabilities at `pos`, with one byte between each two, whatever it
/// is.
pub open spec fn spec_instabs(s: Seq<u8>, pos: int) -> Option<(Seq<Instability>, int)> {
    match spec_instab(s, pos) {
        Some((one, at1)) => match spec_instab(s, at1 + 1) {
            Some((two, at2)) => match spec_instab(s, at2 + 1) {
                Some((three, at3)) => Some((seq![one, two, three], at3)),
                None => None,
            },
            None => None,
        },
        None => None,
    }
}

/// A rotating daily whose opening quote is at `pos`: the code byte of the
/// fractal, one byte that is skipped, three instabilities and, if a `/`
/// follows, after two more skipped bytes a second set of three. The result's
/// position is that of the byte after the last instability.
pub open spec fn spec_daily(s: Seq<u8>, pos: int) -> Option<(DailyView, int)> {
    if 0 <= pos && pos + 1 < s.len() {
        match Fractal::spec_from_u8(s[pos + 1]) {
            Some(fractal) => match spec_instabs(s, pos + 3) {
                Some((instabs, p)) => if p < s.len() && s[p] == SLASH {
                    match spec_instabs(s, p + 3) {
                        Some((alt, q)) => Some((DailyView { fractal, instabs, alt: Some(alt) }, q)),
                        None => None,
                    }
                } else if p < s.len() {
                    Some((DailyView { fractal, instabs, alt: None }, p))
                } else {
                    None
                },
                None => None,
            },
            None => None,
        }
    } else {
        None
    }
}

/// One of the three daily positions at `pos`: a rotating daily if it opens
/// with a quote, a marker if it is the code byte of one of the three fixed
/// fractals. Two more bytes are skipped after it.
pub open spec fn spec_slot(s: Seq<u8>, pos: int) -> Option<(SlotView, int)> {
    if 0 <= pos < s.len() {
        if s[pos] == QUOTE {
            match spec_daily(s, pos) {
                Some((daily, p)) => Some((SlotView::Daily(daily), p + 2)),
                None => None,
            }
        } else if s[pos] == Fractal::Nightmare.spec_code() {
            Some((SlotView::Nightmare, pos + 2))
        } else if s[pos] == Fractal::ShatteredObservatory.spec_code() {
            Some((SlotView::ShatteredObservatory, pos + 2))
        } else if s[pos] == Fractal::SunquaPeak.spec_code() {
            Some((SlotView::SunquaPeak, pos + 2))
        } else {
            None
        }
    } else {
        None
    }
}

/// The instabilities of a fixed fractal at `pos`: three skipped bytes, three
/// instabilities, two skipped bytes.
pub open spec fn spec_mote(s: Seq<u8>, pos: int) -> Option<(Seq<Instability>, int)> {
    match spec_instabs(s, pos + 3) {
        Some((instabs, p)) => Some((instabs, p + 2)),
        None => None,
    }
}

/// The record of one day at `pos`: a date label that is skipped, the three
/// daily positions, the instabilities of Nightmare, of Shattered Observatory
/// and of Sunqua Peak, and one skipped byte.
pub open spec fn spec_record(s: Seq<u8>, pos: int) -> Option<(RotationView, int)> {
    match spec_slot(s, pos + DATE_LABEL_LEN) {
        Some((d1, at1)) => match spec_slot(s, at1) {
            Some((d2, at2)) => match spec_slot(s, at2) {
                Some((d3, at3)) => match spec_mote(s, at3) {
                    Some((nightmare, at4)) => match spec_mote(s, at4) {
                        Some((shattered_observatory, at5)) => match spec_mote(s, at5) {
                            Some((sunqua_peak, at6)) => Some(
                                (
                                    RotationView {
                                        dailies: seq![d1, d2, d3],
                                        nightmare,
                                        shattered_observatory,
                                        sunqua_peak,
                                    },
                                    at6 + 1,
                                ),
                            ),
                            None => None,
                        },
                        None => None,
                    },
                    None => None,
                },
                None => None,
            },
            None => None,
        },
        None => None,
    }
}

/// The first `n` records of the text, which start after the heading line, and
/// the position after them.
pub open spec fn spec_records(s: Seq<u8>, n: nat) -> Option<(Seq<RotationView>, int)>
    decreases n,
{
    if n == 0 {
        Some((Seq::empty(), HEADER_LEN as int))
    } else {
        match spec_records(s, (n - 1) as nat) {
            Some((sets, pos)) => match spec_record(s, pos) {
                Some((set, next)) => Some((sets.push(set), next)),
                None => None,
            },
            None => None,
        }
    }
}

/// The schedule that a text holds: its first 366 records, if each of them is
/// well formed.
pub open spec fn spec_schedule(s: Seq<u8>) -> Option<Seq<RotationView>> {
    match spec_records(s, SCHEDULE_DAYS as nat) {
        Some((sets, _)) => Some(sets),
        None => None,
    }
}

/// Nothing is read at or beyond the end of the text.
pub proof fn lemma_nothing_beyond_end(s: Seq<u8>, pos: int)
    requires
        pos >= s.len(),
    ensures
        spec_number(s, pos) is None,
        spec_instab(s, pos) is None,
        spec_instabs(s, pos) is None,
        spec_daily(s, pos) is None,
        spec_slot(s, pos) is None,
        spec_mote(s, pos) is None,
        spec_record(s, pos) is None,
{
}

/// A cursor that moves forward over the schedule text and never back.
struct Parser<'a> {
    bytes: &'a [u8],
    /// The position in the text, or the length of the text once the cursor
    /// has moved beyond its end.
    pos: usize,
    /// The position that the cursor has moved to.
    cursor: Ghost<int>,
}

impl<'a> Parser<'a> {
    /// The stored position is the cursor's, cut off at the end of the text.
    spec fn wf(&self) -> bool {
        &&& 0 <= self.cursor@
        &&& self.pos == if self.cursor@ <= self.bytes@.len() {
            self.cursor@
        } else {
            self.bytes@.len() as int
        }
    }

    /// A cursor that stands after the heading line of the text.
    fn new(bytes: &'a [u8]) -> (r: Self)
        ensures
            r.wf(),
            r.bytes == bytes,
            r.cursor@ == 30,
    {
        let pos = if HEADER_LEN <= bytes.len() {
            HEADER_LEN
        } else {
            bytes.len()
        };
        Self { bytes, pos, cursor: Ghost(30) }
    }

    /// Moves the cursor forward by `n` bytes without reading them.
    fn skip(&mut self, n: usize)
        requires
            old(self).wf(),
        ensures
            final(self).wf(),
            final(self).bytes == old(self).bytes,
            final(self).cursor@ == old(self).cursor@ + n,
    {
        if n <= self.bytes.len() - self.pos {
            self.pos += n;
        } else {
            self.pos = self.bytes.len();
        }
        self.cursor = Ghost(self.cursor@ + n);
    }

    /// The byte under the cursor, if the cursor is inside the text.
    fn peek(&self) -> (r: Option<u8>)
        requires
            self.wf(),
        ensures
            r == if self.cursor@ < self.bytes@.len() {
                Some(self.bytes@[self.cursor@])
            } else {
                None
            },
    {
        if self.pos < self.bytes.len() {
            Some(self.bytes[self.pos])
        } else {
            None
        }
    }

    /// Reads all the records of the schedule.
    fn run(&mut self) -> (r: Option<Vec<RotationSet>>)
        requires
            old(self).wf(),
            old(self).cursor@ == 30,
        ensures
            final(self).wf(),
            final(self).bytes == old(self).bytes,
            match spec_schedule(old(self).bytes@) {
                Some(sets) => r is Some && r.unwrap()@.len() == 366 && r.unwrap()@.map_values(
                    |set: RotationSet| set@,
                ) == sets,
                None => r is None,
            },
    {
        let mut sets: Vec<RotationSet> = Vec::new();
        let ghost text = self.bytes@;
        while sets.len() < SCHEDULE_DAYS
            invariant
                self.wf(),
                self.bytes == old(self).bytes,
                text == self.bytes@,
                sets@.len() <= 366,
                spec_records(text, sets@.len()) == Some(
                    (sets@.map_values(|set: RotationSet| set@), self.cursor@),
                ),
            decreases 366 - sets@.len(),
        {
            let ghost before = sets@.map_values(|set: RotationSet| set@);
            match self.parse_set() {
                Some(set) => {
                    sets.push(set);
                    assert(sets@.map_values(|set: RotationSet| set@) =~= before.push(set@));
                },
                None => {
                    proof {
                        lemma_records_fail_on(text, sets@.len() + 1, 366);
                    }
                    return None;
                },
            }
        }
        Some(sets)
    }

    /// Reads the record of one day.
    fn parse_set(&mut self) -> (r: Option<RotationSet>)
        requires
            old(self).wf(),
        ensures
            final(self).wf(),
            final(self).bytes == old(self).bytes,
            match spec_record(old(self).bytes@, old(self).cursor@) {
                Some((set, next)) => r is Some && r.unwrap()@ == set && final(self).cursor@ == next,
                None => r is None,
            },
    {
        self.skip(DATE_LABEL_LEN);
        let d1 = match self.parse_daily_or_cm() {
            Some(d) => d,
            None => { return None; },
        };
        let d2 = match self.parse_daily_or_cm() {
            Some(d) => d,
            None => { return None; },
        };
        let d3 = match self.parse_daily_or_cm() {
            Some(d) => d,
            None => { return None; },
        };
        let nm = match self.parse_cm() {
            Some(i) => i,
            None => { return None; },
        };
        let so = match self.parse_cm() {
            Some(i) => i,
            None => { return None; },
        };
        let sp = match self.parse_cm() {
            Some(i) => i,
            None => { return None; },
        };
        self.skip(1);
        Some(RotationSet::new(d1, d2, d3, nm, so, sp))
    }

    /// Reads one of the three daily positions.
    fn parse_daily_or_cm(&mut self) -> (r: Option<DailyOrCm>)
        requires
            old(self).wf(),
        ensures
            final(self).wf(),
            final(self).bytes == old(self).bytes,
            match spec_slot(old(self).bytes@, old(self).cursor@) {
                Some((slot, next)) => r is Some && r.unwrap()@ == slot && final(self).cursor@
                    == next,
                None => r is None,
            },
    {
        let first = match self.peek() {
            Some(b) => b,
            None => { return None; },
        };
        let res = if first == QUOTE {
            match self.parse_daily() {
                Some(daily) => DailyOrCm::Daily(daily),
                None => { return None; },
            }
        } else if first == 73 {
            DailyOrCm::Nightmare
        } else if first == 74 {
            DailyOrCm::ShatteredObservatory
        } else if first == 85 {
            DailyOrCm::SunquaPeak
        } else {
            return None;
        };
        self.skip(2);
        Some(res)
    }

    /// Reads a rotating daily, from its opening quote to its last instability.
    fn parse_daily(&mut self) -> (r: Option<Daily>)
        requires
            old(self).wf(),
        ensures
            final(self).wf(),
            final(self).bytes == old(self).bytes,
            match spec_daily(old(self).bytes@, old(self).cursor@) {
                Some((daily, next)) => r is Some && r.unwrap()@ == daily && final(self).cursor@
                    == next,
                None => r is None,
            },
    {
        self.skip(1);
        let code = match self.peek() {
            Some(b) => b,
            None => { return None; },
        };
        let fractal = match Fractal::from_u8(code) {
            Some(f) => f,
            None => { return None; },
        };
        self.skip(2);
        let instabs = match self.parse_instabs() {
            Some(i) => i,
            None => { return None; },
        };
        let after = match self.peek() {
            Some(b) => b,
            None => { return None; },
        };
        let mut alt: Option<Instabs> = None;
        if after == SLASH {
            self.skip(3);
            alt = match self.parse_instabs() {
                Some(i) => Some(i),
                None => { return None; },
            };
        }
        Some(Daily::new_with_alt(fractal, instabs, alt))
    }

    /// Reads the instabilities of a fixed fractal.
    fn parse_cm(&mut self) -> (r: Option<Instabs>)
        requires
            old(self).wf(),
        ensures
            final(self).wf(),
            final(self).bytes == old(self).bytes,
            match spec_mote(old(self).bytes@, old(self).cursor@) {
                Some((instabs, next)) => r is Some && r.unwrap()@ == instabs && final(self).cursor@ == next,
                None => r is None,
            },
    {
        self.skip(3);
        let instabs = match self.parse_instabs() {
            Some(i) => i,
            None => { return None; },
        };
        self.skip(2);
        Some(instabs)
    }

    /// Reads three instabilities.
    fn parse_instabs(&mut self) -> (r: Option<Instabs>)
        requires
            old(self).wf(),
        ensures
            final(self).wf(),
            final(self).bytes == old(self).bytes,
            match spec_instabs(old(self).bytes@, old(self).cursor@) {
                Some((instabs, next)) => r is Some && r.unwrap()@ == instabs && final(self).cursor@ == next,
                None => r is None,
            },
    {
        let one = match self.parse_instab() {
            Some(i) => i,
            None => { return None; },
        };
        self.skip(1);
        let two = match self.parse_instab() {
            Some(i) => i,
            None => { return None; },
        };
        self.skip(1);
        let three = match self.parse_instab() {
            Some(i) => i,
            None => { return None; },
        };
        Some(Instabs::new(one, two, three))
    }

    /// Reads the code of one instability.
    fn parse_instab(&mut self) -> (r: Option<Instability>)
        requires
            old(self).wf(),
        ensures
            final(self).wf(),
            final(self).bytes == old(self).bytes,
            match spec_instab(old(self).bytes@, old(self).cursor@) {
                Some((instab, next)) => r == Some(instab) && final(self).cursor@ == next,
                None => r is None,
            },
    {
        match self.parse_u8() {
            Some(n) => Instability::from_u8(n),
            None => None,
        }
    }

    /// Reads a number of one or two digits.
    fn parse_u8(&mut self) -> (r: Option<u8>)
        requires
            old(self).wf(),
        ensures
            final(self).wf(),
            final(self).bytes == old(self).bytes,
            match spec_number(old(self).bytes@, old(self).cursor@) {
                Some((n, next)) => r == Some(n) && final(self).cursor@ == next,
                None => r is None,
            },
    {
        let first = match self.peek() {
            Some(b) => b,
            None => { return None; },
        };
        if first < DIGIT_ZERO || first > DIGIT_NINE {
            return None;
        }
        self.skip(1);
        let next = match self.peek() {
            Some(b) => b,
            None => { return None; },
        };
        let mut n: u8 = first - DIGIT_ZERO;
        if DIGIT_ZERO <= next && next <= DIGIT_NINE {
            self.skip(1);
            n = n * 10 + (next - DIGIT_ZERO);
        }
        Some(n)
    }
}

/// Where the first `n` records cannot be read, no larger number of records
/// can.
pub proof fn lemma_records_fail_on(s: Seq<u8>, n: nat, m: nat)
    requires
        n <= m,
        spec_records(s, n) is None,
    ensures
        spec_records(s, m) is None,
    decreases m,
{
    if n < m {
        lemma_records_fail_on(s, n, (m - 1) as nat);
    }
}

/// What is read for a daily position is well formed, and what is read for a
/// fixed fractal are three instabilities.
pub proof fn lemma_fields_wf(s: Seq<u8>, pos: int)
    ensures
        spec_instabs(s, pos) matches Some((instabs, _)) ==> instabs.len() == 3,
        spec_mote(s, pos) matches Some((instabs, _)) ==> instabs.len() == 3,
        spec_daily(s, pos) matches Some((daily, _)) ==> daily.wf(),
        spec_slot(s, pos) matches Some((slot, _)) ==> slot.wf(),
{
    assert(spec_instabs(s, pos) matches Some((instabs, _)) ==> instabs.len() == 3);
    assert(spec_instabs(s, pos + 3) matches Some((instabs, _)) ==> instabs.len() == 3);
    assert(spec_daily(s, pos) matches Some((daily, _)) ==> daily.wf()) by {
        match spec_instabs(s, pos + 3) {
            Some((_, p)) => {
                assert(spec_instabs(s, p + 3) matches Some((alt, _)) ==> alt.len() == 3);
            },
            None => {},
        }
    }
}

/// The cursor only moves forward: whatever is read ends after the place where
/// it starts.
pub proof fn lemma_cursor_moves_forward(s: Seq<u8>, pos: int)
    ensures
        spec_number(s, pos) matches Some((_, next)) ==> pos < next <= s.len(),
        spec_instab(s, pos) matches Some((_, next)) ==> pos < next <= s.len(),
        spec_instabs(s, pos) matches Some((_, next)) ==> pos < next <= s.len(),
        spec_mote(s, pos) matches Some((_, next)) ==> pos < next <= s.len() + 2,
        spec_daily(s, pos) matches Some((_, next)) ==> pos < next <= s.len(),
        spec_slot(s, pos) matches Some((_, next)) ==> pos < next <= s.len() + 2,
{
    assert(spec_instabs(s, pos) matches Some((_, next)) ==> pos < next <= s.len());
    assert(spec_instabs(s, pos + 3) matches Some((_, next)) ==> pos + 3 < next <= s.len());
    assert(spec_daily(s, pos) matches Some((_, next)) ==> pos < next <= s.len()) by {
        match spec_instabs(s, pos + 3) {
            Some((_, p)) => {
                assert(spec_instabs(s, p + 3) matches Some((_, next)) ==> p + 3 < next
                    <= s.len());
            },
            None => {},
        }
    }
}

/// Each record that can be read is a well-formed day.
pub proof fn lemma_record_wf(s: Seq<u8>, pos: int)
    ensures
        spec_record(s, pos) matches Some((set, _)) ==> set.wf(),
{
    match spec_slot(s, pos + 6) {
        Some((d1, at1)) => {
            lemma_fields_wf(s, pos + 6);
            match spec_slot(s, at1) {
                Some((d2, at2)) => {
                    lemma_fields_wf(s, at1);
                    match spec_slot(s, at2) {
                        Some((d3, at3)) => {
                            lemma_fields_wf(s, at2);
                            lemma_fields_wf(s, at3);
                            match spec_mote(s, at3) {
                                Some((_, at4)) => {
                                    lemma_fields_wf(s, at4);
                                    match spec_mote(s, at4) {
                                        Some((_, at5)) => {
                                            lemma_fields_wf(s, at5);
                                        },
                                        None => {},
                                    }
                                },
                                None => {},
                            }
                        },
                        None => {},
                    }
                },
                None => {},
            }
        },
        None => {},
    }
}

/// The first `n` records, where they can be read, are `n` well-formed days.
pub proof fn lemma_records_wf(s: Seq<u8>, n: nat)
    ensures
        spec_records(s, n) matches Some((sets, _)) ==> sets.len() == n && forall|i: int|
            0 <= i < n ==> (#[trigger] sets[i]).wf(),
    decreases n,
{
    if n > 0 {
        lemma_records_wf(s, (n - 1) as nat);
        match spec_records(s, (n - 1) as nat) {
            Some((_, pos)) => {
                lemma_record_wf(s, pos);
            },
            None => {},
        }
    }
}

/// A schedule that can be read has 366 days, each of them well formed.
pub proof fn lemma_schedule_wf(s: Seq<u8>)
    ensures
        spec_schedule(s) matches Some(sets) ==> sets.len() == 366 && forall|i: int|
            0 <= i < 366 ==> (#[trigger] sets[i]).wf(),
{
    lemma_records_wf(s, 366);
}

/// The schedule of a whole year: 366 days, one for each slot of the 366-slot
/// year. It is read once and not changed afterwards.
pub struct Schedule {
    sets: Vec<RotationSet>,
}

impl View for Schedule {
    type V = Seq<RotationView>;

    closed spec fn view(&self) -> Seq<RotationView> {
        self.sets@.map_values(|set: RotationSet| set@)
    }
}

impl Schedule {
    /// Every schedule has 366 days.
    #[verifier::type_invariant]
    pub closed spec fn inv(self) -> bool {
        self.sets@.len() == 366
    }

    /// Reads the schedule from the bytes of its text. Any byte that is not
    /// what the format asks for at its place makes the whole text unreadable.
    pub fn decode_bytes(bytes: &[u8]) -> (r: Option<Schedule>)
        ensures
            match spec_schedule(bytes@) {
                Some(sets) => r is Some && r.unwrap()@ == sets,
                None => r is None,
            },
            r matches Some(schedule) ==> schedule@.len() == 366 && forall|i: int|
                0 <= i < 366 ==> (#[trigger] schedule@[i]).wf(),
    {
        let mut parser = Parser::new(bytes);
        proof {
            lemma_schedule_wf(bytes@);
        }
        match parser.run() {
            Some(sets) => Some(Schedule { sets }),
            None => None,
        }
    }

    /// Reads the schedule from its text, which is read byte by byte.
    pub fn decode(text: &str) -> (r: Option<Schedule>)
        ensures
            match spec_schedule(text.spec_bytes()) {
                Some(sets) => r is Some && r.unwrap()@ == sets,
                None => r is None,
            },
            r matches Some(schedule) ==> schedule@.len() == 366 && forall|i: int|
                0 <= i < 366 ==> (#[trigger] schedule@[i]).wf(),
    {
        Self::decode_bytes(text.as_bytes())
    }

    /// The number of days, which is 366.
    pub fn len(&self) -> (r: usize)
        ensures
            r == 366,
            self@.len() == 366,
    {
        proof {
            use_type_invariant(self);
        }
        self.sets.len()
    }

    /// The day in slot `index`, for the slots 0 to 365.
    pub fn get(&self, index: usize) -> (r: Option<&RotationSet>)
        ensures
            self@.len() == 366,
            index < 366 ==> r is Some && r.unwrap()@ == self@[index as int],
            index >= 366 ==> r is None,
    {
        proof {
            use_type_invariant(self);
        }
        if index < self.sets.len() {
            Some(&self.sets[index])
        } else {
            None
        }
    }

    /// The day of a date: the one in the date's slot.
    pub fn lookup(&self, date: Date) -> (r: &RotationSet)
        ensures
            self@.len() == 366,
            0 <= date@.day < 366,
            r@ == self@[date@.day],
    {
        proof {
            use_type_invariant(self);
        }
        &self.sets[date.day() as usize]
    }
}

/// What can be looked up in the schedule by date.
pub trait Parsable {
    /// The day that an entry of the schedule holds.
    spec fn spec_entry(&self) -> RotationView;

    /// The entry of the schedule for a date: the one in the date's slot.
    fn parse(schedule: &Schedule, date: Date) -> (r: &Self)
        ensures
            schedule@.len() == 366,
            0 <= date@.day < 366,
            r.spec_entry() == schedule@[date@.day],
    ;
}

impl Parsable for RotationSet {
    open spec fn spec_entry(&self) -> RotationView {
        self@
    }

    fn parse(schedule: &Schedule, date: Date) -> (r: &Self) {
        schedule.lookup(date)
    }
}

} // verus!
