//! The sip ledger as this crate sees it: the rows that the store holds, and
//! the aggregate that is rebuilt from all of them after every change.

use crate::clock::utc_now;
use vstd::prelude::*;

verus! {

/// A sip is due once more than this many seconds have passed since the last
/// one. The interval is fixed: it does not follow the reminder interval of
/// the settings.
pub const SIP_INTERVAL_SECONDS: i64 = 10;

/// One recorded sip.
#[derive(Debug, Clone, Copy, PartialEq, Eq, Structural)]
pub struct Sip {
    /// Assigned by the store, growing with every sip.
    pub id: i64,
    /// Millilitres.
    pub amount: i64,
    /// When the sip was taken, in seconds since the Unix epoch.
    pub created_at: i64,
    /// Whether the user has been reminded since this sip.
    pub notified_user: bool,
}

/// The rollup of the whole ledger. It is never stored and never updated in
/// place: it is rebuilt from all rows whenever one is added or changed.
/// "Today" is fixed when the aggregate is built, not when it is read.
#[derive(Debug, Clone, Copy, PartialEq, Eq, Structural)]
pub struct SipState {
    /// Time of the latest sip, in seconds since the Unix epoch; 0 if none.
    pub last_sip_timestamp: i64,
    pub total_sips_today: i64,
    pub total_amount_today: i64,
    pub total_sips_all_time: i64,
    pub total_amount_all_time: i64,
    /// The latest sip, if there is one.
    pub last_sip_id: Option<i64>,
    /// The latest sip's `notified_user`.
    pub notified_user: bool,
}

/// The store could not be reached, or refused a read or a write.
#[derive(Debug, Clone, PartialEq, Eq)]
pub struct PersistenceError {
    pub message: String,
}

/// The sum of the amounts of `sips`.
pub open spec fn total_amount(sips: Seq<Sip>) -> int
    decreases sips.len(),
{
    if sips.len() == 0 {
        0
    } else {
        total_amount(sips.drop_last()) + sips.last().amount
    }
}

/// The sips taken at or after `start`, in their order.
pub open spec fn sips_since(sips: Seq<Sip>, start: i64) -> Seq<Sip> {
    sips.filter(|sip: Sip| sip.created_at >= start)
}

/// The counts and sums of `sips` can be held in an aggregate.
pub open spec fn ledger_fits(sips: Seq<Sip>, start_of_today: i64) -> bool {
    &&& sips.len() <= i64::MAX
    &&& i64::MIN <= total_amount(sips) <= i64::MAX
    &&& i64::MIN <= total_amount(sips_since(sips, start_of_today)) <= i64::MAX
}

/// The ledger after the store has added a sip: the new row comes first and
/// is not yet acknowledged.
pub open spec fn ledger_with_sip(sips: Seq<Sip>, id: i64, amount: i64, created_at: i64) -> Seq<Sip> {
    seq![Sip { id, amount, created_at, notified_user: false }] + sips
}

/// The ledger after the store has set `notified_user` on the rows with this
/// id.
pub open spec fn ledger_with_notified(sips: Seq<Sip>, id: i64, notified_user: bool) -> Seq<Sip> {
    sips.map_values(
        |sip: Sip|
            if sip.id == id {
                Sip { notified_user, ..sip }
            } else {
                sip
            },
    )
}

impl SipState {
    /// The aggregate of an empty ledger.
    pub open spec fn zero() -> SipState {
        SipState {
            last_sip_timestamp: 0,
            total_sips_today: 0,
            total_amount_today: 0,
            total_sips_all_time: 0,
            total_amount_all_time: 0,
            last_sip_id: None,
            notified_user: false,
        }
    }

    /// This aggregate is the rollup of `sips`, listed newest first, for a
    /// day that began at `start_of_today`.
    pub open spec fn describes(self, sips: Seq<Sip>, start_of_today: i64) -> bool {
        if sips.len() == 0 {
            self == Self::zero()
        } else {
            &&& self.last_sip_timestamp == sips[0].created_at
            &&& self.last_sip_id == Some(sips[0].id)
            &&& self.notified_user == sips[0].notified_user
            &&& self.total_sips_all_time == sips.len()
            &&& self.total_amount_all_time == total_amount(sips)
            &&& self.total_sips_today == sips_since(sips, start_of_today).len()
            &&& self.total_amount_today == total_amount(sips_since(sips, start_of_today))
        }
    }

    /// Whether a sip is due at `now`: always when none was ever taken,
    /// otherwise when strictly more than the interval has passed.
    pub open spec fn due_at(self, now: i64) -> bool {
        self.last_sip_id is None || now - self.last_sip_timestamp > SIP_INTERVAL_SECONDS
    }

    /// Rebuilds the aggregate from all rows of the ledger, newest first.
    /// Returns `None` exactly when a count or a sum is too large for the
    /// aggregate to hold.
    pub fn aggregate(sips: &Vec<Sip>, start_of_today: i64) -> (state: Option<SipState>)
        ensures
            state is Some <==> ledger_fits(sips@, start_of_today),
            state matches Some(s) ==> s.describes(sips@, start_of_today),
    {
        let n = sips.len();
        let mut amount_all: i128 = 0;
        let mut amount_today: i128 = 0;
        let mut count_today: usize = 0;
        let mut i: usize = 0;
        while i < n
            invariant
                n == sips.len(),
                i <= n,
                amount_all == total_amount(sips@.take(i as int)),
                amount_today == total_amount(sips_since(sips@.take(i as int), start_of_today)),
                count_today == sips_since(sips@.take(i as int), start_of_today).len(),
                count_today <= i,
                -(i * 0x8000_0000_0000_0000) <= amount_all <= i * 0x8000_0000_0000_0000,
                -(i * 0x8000_0000_0000_0000) <= amount_today <= i * 0x8000_0000_0000_0000,
            decreases n - i,
        {
            let sip = sips[i];
            proof {
                lemma_take_next(sips@, i as int, start_of_today);
            }
            amount_all = amount_all + sip.amount as i128;
            if sip.created_at >= start_of_today {
                amount_today = amount_today + sip.amount as i128;
                count_today = count_today + 1;
            }
            i = i + 1;
        }
        assert(sips@.take(n as int) =~= sips@);
        if n == 0 {
            return Some(SipState::default());
        }
        if n as u64 > i64::MAX as u64 || amount_all < i64::MIN as i128 || amount_all > i64::MAX as i128
            || amount_today < i64::MIN as i128 || amount_today > i64::MAX as i128 {
            return None;
        }
        let latest = sips[0];
        Some(
            SipState {
                last_sip_timestamp: latest.created_at,
                total_sips_today: count_today as i64,
                total_amount_today: amount_today as i64,
                total_sips_all_time: n as i64,
                total_amount_all_time: amount_all as i64,
                last_sip_id: Some(latest.id),
                notified_user: latest.notified_user,
            },
        )
    }

    /// Takes what a read of the whole ledger gave, newest first, and returns
    /// the aggregate to cache. A failed read gives the aggregate of an empty
    /// ledger, so that the caller goes on without a reminder.
    pub fn read_from_db(
        &self,
        fetched: Result<Vec<Sip>, PersistenceError>,
        start_of_today: i64,
    ) -> (state: SipState)
        requires
            fetched matches Ok(sips) ==> ledger_fits(sips@, start_of_today),
        ensures
            match fetched {
                Ok(sips) => state.describes(sips@, start_of_today),
                Err(_) => state == SipState::zero(),
            },
    {
        match fetched {
            Ok(sips) => {
                match Self::aggregate(&sips, start_of_today) {
                    Some(state) => state,
                    None => SipState::default(),
                }
            },
            Err(_) => SipState::default(),
        }
    }

    /// Whether a sip is due at `now`, given in seconds since the Unix epoch.
    pub fn is_due_at(&self, now: i64) -> (due: bool)
        ensures
            due == self.due_at(now),
    {
        match self.last_sip_id {
            None => true,
            Some(_) => now as i128 - self.last_sip_timestamp as i128 > SIP_INTERVAL_SECONDS as i128,
        }
    }

    /// Whether a sip is due now, by the system clock.
    pub fn check_if_sip_is_due(&self) -> (due: bool)
        ensures
            self.last_sip_id is None ==> due,
            exists|now: i64| due == self.due_at(now),
    {
        let now = utc_now();
        let due = self.is_due_at(now.secs);
        assert(due == self.due_at(now.secs));
        due
    }
}

impl Default for SipState {
    fn default() -> (state: SipState)
        ensures
            state == SipState::zero(),
    {
        SipState {
            last_sip_timestamp: 0,
            total_sips_today: 0,
            total_amount_today: 0,
            total_sips_all_time: 0,
            total_amount_all_time: 0,
            last_sip_id: None,
            notified_user: false,
        }
    }
}

/// The ledger after the store has added the sips of `taken`, one after
/// another, first to last.
pub open spec fn ledger_with_sips(sips: Seq<Sip>, taken: Seq<Sip>) -> Seq<Sip>
    decreases taken.len(),
{
    if taken.len() == 0 {
        sips
    } else {
        ledger_with_sip(
            ledger_with_sips(sips, taken.drop_last()),
            taken.last().id,
            taken.last().amount,
            taken.last().created_at,
        )
    }
}

/// Every sip of `sips` was taken at or after `start`.
pub open spec fn all_since(sips: Seq<Sip>, start: i64) -> bool {
    forall|i: int| 0 <= i < sips.len() ==> (#[trigger] sips[i]).created_at >= start
}

/// No sip of `sips` is newer than one listed before it.
pub open spec fn newest_first(sips: Seq<Sip>) -> bool {
    forall|i: int, j: int|
        0 <= i <= j < sips.len() ==> (#[trigger] sips[i]).created_at >= (#[trigger] sips[j]).created_at
}

/// In a ledger listed newest first, no sip was taken after the time that
/// the aggregate gives for the latest one.
pub proof fn lemma_latest_is_newest(state: SipState, sips: Seq<Sip>, start_of_today: i64)
    requires
        state.describes(sips, start_of_today),
        newest_first(sips),
    ensures
        forall|i: int| 0 <= i < sips.len() ==> (#[trigger] sips[i]).created_at
            <= state.last_sip_timestamp,
{
    assert forall|i: int| 0 <= i < sips.len() implies (#[trigger] sips[i]).created_at
        <= state.last_sip_timestamp by {
        assert(sips[0].created_at >= sips[i].created_at);
    }
}

/// A sip taken no earlier than every sip of the ledger keeps the ledger
/// newest first when it is recorded.
pub proof fn lemma_record_sip_keeps_order(sips: Seq<Sip>, id: i64, amount: i64, created_at: i64)
    requires
        newest_first(sips),
        forall|i: int| 0 <= i < sips.len() ==> (#[trigger] sips[i]).created_at <= created_at,
    ensures
        newest_first(ledger_with_sip(sips, id, amount, created_at)),
{
    let after = ledger_with_sip(sips, id, amount, created_at);
    assert forall|i: int, j: int| 0 <= i <= j < after.len() implies (#[trigger] after[i]).created_at
        >= (#[trigger] after[j]).created_at by {
        if i > 0 {
            assert(after[i] == sips[i - 1]);
            assert(after[j] == sips[j - 1]);
        } else if j > 0 {
            assert(after[j] == sips[j - 1]);
        }
    }
}

/// A ledger has one aggregate: the rollup is a function of the rows and of
/// the start of the day, and of nothing that was cached before.
pub proof fn lemma_aggregate_is_determined(
    a: SipState,
    b: SipState,
    sips: Seq<Sip>,
    start_of_today: i64,
)
    requires
        a.describes(sips, start_of_today),
        b.describes(sips, start_of_today),
    ensures
        a == b,
{
}

/// Recording a sip makes it the latest one, unacknowledged, adds one to the
/// all-time count and its amount to the all-time sum, and does the same to
/// today's count and sum exactly when the sip is of today.
pub proof fn lemma_record_sip(
    before: SipState,
    after: SipState,
    sips: Seq<Sip>,
    id: i64,
    amount: i64,
    created_at: i64,
    start_of_today: i64,
)
    requires
        before.describes(sips, start_of_today),
        after.describes(ledger_with_sip(sips, id, amount, created_at), start_of_today),
    ensures
        after.last_sip_id == Some(id),
        after.last_sip_timestamp == created_at,
        !after.notified_user,
        after.total_sips_all_time == before.total_sips_all_time + 1,
        after.total_amount_all_time == before.total_amount_all_time + amount,
        created_at >= start_of_today ==> after.total_sips_today == before.total_sips_today + 1
            && after.total_amount_today == before.total_amount_today + amount,
        created_at < start_of_today ==> after.total_sips_today == before.total_sips_today
            && after.total_amount_today == before.total_amount_today,
{
    let sip = Sip { id, amount, created_at, notified_user: false };
    lemma_prepend(sip, sips, start_of_today);
}

/// After any number of sips recorded into an empty ledger, the all-time
/// count is their number and the all-time sum is the sum of their amounts.
/// If none of them was taken before today began, today's count and sum are
/// the same two numbers.
pub proof fn lemma_record_sips(state: SipState, taken: Seq<Sip>, start_of_today: i64)
    requires
        state.describes(ledger_with_sips(Seq::empty(), taken), start_of_today),
    ensures
        state.total_sips_all_time == taken.len(),
        state.total_amount_all_time == total_amount(taken),
        all_since(taken, start_of_today) ==> state.total_sips_today == taken.len()
            && state.total_amount_today == total_amount(taken),
{
    lemma_ledger_with_sips(Seq::empty(), taken, start_of_today);
    if taken.len() == 0 {
        reveal(Seq::filter);
    }
}

/// Marking a sip as notified changes no count and no sum, and marking it a
/// second time changes nothing at all. If the sip is the latest one, the
/// aggregate shows it as notified.
pub proof fn lemma_mark_notified(
    before: SipState,
    once: SipState,
    twice: SipState,
    sips: Seq<Sip>,
    id: i64,
    start_of_today: i64,
)
    requires
        before.describes(sips, start_of_today),
        once.describes(ledger_with_notified(sips, id, true), start_of_today),
        twice.describes(
            ledger_with_notified(ledger_with_notified(sips, id, true), id, true),
            start_of_today,
        ),
    ensures
        ledger_with_notified(ledger_with_notified(sips, id, true), id, true)
            == ledger_with_notified(sips, id, true),
        twice == once,
        once.total_sips_all_time == before.total_sips_all_time,
        once.total_amount_all_time == before.total_amount_all_time,
        once.total_sips_today == before.total_sips_today,
        once.total_amount_today == before.total_amount_today,
        once.last_sip_id == before.last_sip_id,
        once.last_sip_timestamp == before.last_sip_timestamp,
        before.last_sip_id == Some(id) ==> once.notified_user,
{
    let marked = ledger_with_notified(sips, id, true);
    assert(ledger_with_notified(marked, id, true) =~= marked);
    lemma_notified_keeps_totals(sips, id, true, start_of_today);
}

/// A sip recorded after the latest one was marked as notified is not yet
/// notified itself: the next overdue period brings a reminder again.
pub proof fn lemma_record_sip_rearms(
    after: SipState,
    sips: Seq<Sip>,
    marked_id: i64,
    id: i64,
    amount: i64,
    created_at: i64,
    start_of_today: i64,
)
    requires
        after.describes(
            ledger_with_sip(ledger_with_notified(sips, marked_id, true), id, amount, created_at),
            start_of_today,
        ),
    ensures
        !after.notified_user,
        after.last_sip_id == Some(id),
{
}

/// A sip is due at every moment if none was taken. Otherwise it is not due
/// up to and including the tenth second after the latest sip, and due from
/// the eleventh on.
pub proof fn lemma_due_boundary(state: SipState, now: i64)
    ensures
        state.last_sip_id is None ==> state.due_at(now),
        state.last_sip_id is Some && now <= state.last_sip_timestamp + SIP_INTERVAL_SECONDS
            ==> !state.due_at(now),
        state.last_sip_id is Some && now > state.last_sip_timestamp + SIP_INTERVAL_SECONDS
            ==> state.due_at(now),
{
}

/// Putting a row in front of the ledger adds its amount to the sum, and to
/// today's sips if the row is of today.
proof fn lemma_prepend(sip: Sip, sips: Seq<Sip>, start: i64)
    ensures
        total_amount(seq![sip] + sips) == sip.amount + total_amount(sips),
        sips_since(seq![sip] + sips, start) == if sip.created_at >= start {
            seq![sip] + sips_since(sips, start)
        } else {
            sips_since(sips, start)
        },
        total_amount(sips_since(seq![sip] + sips, start)) == total_amount(sips_since(sips, start))
            + if sip.created_at >= start {
            sip.amount as int
        } else {
            0
        },
    decreases sips.len(),
{
    lemma_total_amount_prepend(sip, sips);
    let today = |s: Sip| s.created_at >= start;
    Seq::filter_distributes_over_add(seq![sip], sips, today);
    assert(seq![sip].filter(today) == if sip.created_at >= start {
        seq![sip]
    } else {
        Seq::<Sip>::empty()
    }) by {
        reveal_with_fuel(Seq::filter, 2);
        assert(seq![sip].drop_last() =~= Seq::<Sip>::empty());
        assert(Seq::<Sip>::empty().push(sip) =~= seq![sip]);
    }
    if sip.created_at >= start {
        lemma_total_amount_prepend(sip, sips_since(sips, start));
    } else {
        assert(Seq::<Sip>::empty() + sips_since(sips, start) =~= sips_since(sips, start));
    }
}

proof fn lemma_total_amount_prepend(sip: Sip, sips: Seq<Sip>)
    ensures
        total_amount(seq![sip] + sips) == sip.amount + total_amount(sips),
    decreases sips.len(),
{
    let all = seq![sip] + sips;
    if sips.len() == 0 {
        assert(all.drop_last() =~= Seq::<Sip>::empty());
        assert(all.last() == sip);
        assert(total_amount(Seq::<Sip>::empty()) == 0);
    } else {
        assert(all.drop_last() =~= seq![sip] + sips.drop_last());
        assert(all.last() == sips.last());
        lemma_total_amount_prepend(sip, sips.drop_last());
    }
}

proof fn lemma_ledger_with_sips(sips: Seq<Sip>, taken: Seq<Sip>, start: i64)
    ensures
        ledger_with_sips(sips, taken).len() == sips.len() + taken.len(),
        total_amount(ledger_with_sips(sips, taken)) == total_amount(sips) + total_amount(taken),
        all_since(taken, start) ==> sips_since(ledger_with_sips(sips, taken), start).len()
            == sips_since(sips, start).len() + taken.len() && total_amount(
            sips_since(ledger_with_sips(sips, taken), start),
        ) == total_amount(sips_since(sips, start)) + total_amount(taken),
    decreases taken.len(),
{
    if taken.len() > 0 {
        let earlier = taken.drop_last();
        let last = taken.last();
        lemma_ledger_with_sips(sips, earlier, start);
        let sip = Sip { notified_user: false, ..last };
        lemma_prepend(sip, ledger_with_sips(sips, earlier), start);
        if all_since(taken, start) {
            assert(all_since(earlier, start)) by {
                assert forall|i: int| 0 <= i < earlier.len() implies (#[trigger] earlier[i]).created_at
                    >= start by {
                    assert(earlier[i] == taken[i]);
                }
            }
            assert(taken[taken.len() - 1].created_at >= start);
        }
    }
}

proof fn lemma_notified_keeps_totals(sips: Seq<Sip>, id: i64, notified_user: bool, start: i64)
    ensures
        total_amount(ledger_with_notified(sips, id, notified_user)) == total_amount(sips),
        sips_since(ledger_with_notified(sips, id, notified_user), start) == ledger_with_notified(
            sips_since(sips, start),
            id,
            notified_user,
        ),
        total_amount(sips_since(ledger_with_notified(sips, id, notified_user), start))
            == total_amount(sips_since(sips, start)),
    decreases sips.len(),
{
    reveal(Seq::filter);
    let marked = ledger_with_notified(sips, id, notified_user);
    if sips.len() > 0 {
        let rest = sips.drop_last();
        lemma_notified_keeps_totals(rest, id, notified_user, start);
        assert(marked.drop_last() =~= ledger_with_notified(rest, id, notified_user));
        let today = sips_since(sips, start);
        let today_rest = sips_since(rest, start);
        if sips.last().created_at >= start {
            assert(ledger_with_notified(today, id, notified_user) =~= ledger_with_notified(
                today_rest,
                id,
                notified_user,
            ).push(marked.last()));
            assert(today.drop_last() =~= today_rest);
            assert(sips_since(marked, start).drop_last() =~= sips_since(marked.drop_last(), start));
        }
    } else {
        assert(marked =~= sips);
        assert(ledger_with_notified(sips_since(sips, start), id, notified_user) =~= sips_since(
            sips,
            start,
        ));
    }
}

/// Extending a prefix of the ledger by its next row adds that row's amount
/// to the sum, and to today's sips if the row is of today.
proof fn lemma_take_next(sips: Seq<Sip>, i: int, start: i64)
    requires
        0 <= i < sips.len(),
    ensures
        total_amount(sips.take(i + 1)) == total_amount(sips.take(i)) + sips[i].amount,
        sips_since(sips.take(i + 1), start) == if sips[i].created_at >= start {
            sips_since(sips.take(i), start).push(sips[i])
        } else {
            sips_since(sips.take(i), start)
        },
        total_amount(sips_since(sips.take(i + 1), start)) == total_amount(
            sips_since(sips.take(i), start),
        ) + if sips[i].created_at >= start {
            sips[i].amount as int
        } else {
            0
        },
{
    reveal(Seq::filter);
    assert(sips.take(i + 1).drop_last() =~= sips.take(i));
    assert(sips.take(i + 1).last() == sips[i]);
    if sips[i].created_at >= start {
        let today = sips_since(sips.take(i), start);
        assert(today.push(sips[i]).drop_last() =~= today);
    }
}

} // verus!
