//! The ledger adapter: the in-memory ledger that stands in for Hyperledger
//! Fabric in development (tickets, draw results, wallets and rounds), the
//! choice between that ledger and the real network, and the reading of what
//! the network's command-line peer answers. Running the peer commands is
//! left to the application.

use vstd::prelude::*;
use vstd::slice::{slice_subrange, slice_to_vec};
use vstd::utf8::{encode_utf8, is_ascii_chars, is_ascii_chars_encode_utf8};
use crate::config::Config;
use crate::errors::InfrastructureError;
use crate::outside::{
    format_utc_seconds,
    hex_encode,
    lossy_text,
    parse_uuid,
    parsed_uuid,
    random_uuid,
    utc_now,
    utc_seconds_text,
    utf8_lossy,
    uuid_string,
    LATEST_UTC_SECONDS,
};
use crate::scan::{
    chars_of,
    contains_str,
    contains_text,
    find_from,
    find_text,
    first_occurrence,
    is_blank,
    is_blank_str,
    is_first_occurrence,
    lemma_int_text_parses,
    occurs_at,
    parse_i64,
    parsed_i64,
};
use crate::services::{RoundOnChain, TicketOnChain, WalletOnChain};
use crate::store::{IdStore, TextStore};
use crate::text::{hex_char, hex_lower, int_text, is_v4_uuid, push_i64_text, u128_be_bytes, uuid_text};

verus! {

/// Draw results as recorded on the ledger.
#[derive(Debug, Clone)]
pub struct DrawOnChain {
    pub draw_id: u128,
    pub winning_numbers: Vec<i32>,
    pub tx_hash: String,
    pub timestamp: i64,
}

/// What the chaincode answers to a ticket query, field by field.
#[derive(Debug, Clone)]
pub struct ChaincodeResponse {
    pub tx_hash: Option<String>,
    pub ticket_id: Option<String>,
    pub user_id: Option<String>,
    pub numbers: Option<Vec<i32>>,
    pub draw_id: Option<String>,
    pub timestamp: Option<String>,
    pub status: Option<String>,
}

/// The hash the in-memory ledger gives a transaction: `0x` followed by the
/// hexadecimal bytes of a random UUID.
pub open spec fn mock_tx_hash_text(id: u128) -> Seq<char> {
    "0x"@ + hex_lower(u128_be_bytes(id))
}

/// `h` is a hash that the in-memory ledger gives out.
pub open spec fn is_mock_tx_hash(h: Seq<char>) -> bool {
    exists|id: u128| is_v4_uuid(id) && h == #[trigger] mock_tx_hash_text(id)
}

/// The format a transaction hash is checked against: it starts with `0x` and
/// is longer than 10 bytes.
pub open spec fn tx_hash_format(h: &str) -> bool {
    h@.len() >= 2 && h@[0] == '0' && h@[1] == 'x' && h.len() > 10
}

/// The JSON text that wallet operations answer.
pub open spec fn wallet_json(user_id: u128, balance: int) -> Seq<char> {
    "{\"userId\":\""@ + uuid_text(user_id) + "\",\"balanceCentimes\":"@ + int_text(balance)
        + "}"@
}

/// The message of a refused withdrawal.
pub open spec fn insufficient_funds_message(balance: int, amount: int) -> Seq<char> {
    "Insufficient balance: have "@ + int_text(balance) + ", need "@ + int_text(amount)
}

/// The balance after withdrawing `amount`, or `None` when it does not cover
/// the amount.
pub open spec fn withdrawn(balance: int, amount: int) -> Option<int> {
    if balance < amount {
        None
    } else {
        Some(balance - amount)
    }
}

/// Two hexadecimal digits per byte, all ASCII.
proof fn lemma_hex_lower_ascii(bytes: Seq<u8>)
    ensures
        hex_lower(bytes).len() == 2 * bytes.len(),
        is_ascii_chars(hex_lower(bytes)),
    decreases bytes.len(),
{
    if bytes.len() > 0 {
        lemma_hex_lower_ascii(bytes.drop_first());
        let hd = seq![
            hex_char((bytes[0] / 16) as int),
            hex_char((bytes[0] % 16) as int),
        ];
        let t = hex_lower(bytes.drop_first());
        assert(hex_lower(bytes) == hd + t);
        assert forall|i: int| 0 <= i < hex_lower(bytes).len() implies '\0' <= #[trigger] hex_lower(
            bytes,
        )[i] <= '\u{7f}' by {
            if i >= 2 {
                assert(hex_lower(bytes)[i] == t[i - 2]);
            }
        }
    }
}

/// The format check accepts exactly the texts that start with `0x` and are
/// longer than 10 bytes, whatever their length beyond that.
pub proof fn lemma_tx_hash_format_rule(h: &str)
    ensures
        tx_hash_format(h) <==> ("0x"@.is_prefix_of(h@) && h.len() > 10),
{
    reveal_strlit("0x");
    if h@.len() >= 2 {
        assert(h@.subrange(0, 2) =~= seq![h@[0], h@[1]]);
    }
}

/// A hash from the in-memory ledger passes the format check.
pub proof fn lemma_mock_tx_hash_format(h: &str)
    requires
        is_mock_tx_hash(h@),
    ensures
        tx_hash_format(h),
{
    let id = choose|id: u128| is_v4_uuid(id) && h@ == #[trigger] mock_tx_hash_text(id);
    reveal_strlit("0x");
    lemma_hex_lower_ascii(u128_be_bytes(id));
    let x = hex_lower(u128_be_bytes(id));
    assert(is_ascii_chars(h@)) by {
        assert forall|i: int| 0 <= i < h@.len() implies '\0' <= #[trigger] h@[i] <= '\u{7f}' by {
            if i >= 2 {
                assert(h@[i] == x[i - 2]);
            }
        }
    }
    is_ascii_chars_encode_utf8(h@);
}

/// The sixteen bytes of `id`, most significant first.
pub fn be_bytes(id: u128) -> (b: Vec<u8>)
    ensures
        b@ == u128_be_bytes(id),
{
    let mut b: Vec<u8> = Vec::new();
    let mut i: usize = 0;
    while i < 16
        invariant
            i <= 16,
            b@ == u128_be_bytes(id).subrange(0, i as int),
        decreases 16 - i,
    {
        let sh: u128 = (8 * (15 - i)) as u128;
        b.push(((id >> sh) & 0xff) as u8);
        i = i + 1;
        assert(b@ =~= u128_be_bytes(id).subrange(0, i as int));
    }
    assert(u128_be_bytes(id).subrange(0, 16) =~= u128_be_bytes(id));
    b
}

/// A new transaction hash for the in-memory ledger: `0x` and the
/// hexadecimal bytes of a random UUID.
pub fn generate_mock_tx_hash() -> (h: String)
    ensures
        is_mock_tx_hash(h@),
{
    let id = random_uuid();
    let bytes = be_bytes(id);
    let hex = hex_encode(bytes.as_slice());
    let mut h = String::from_str("0x");
    h.append(hex.as_str());
    assert(h@ == mock_tx_hash_text(id));
    h
}

/// Whether `tx_hash` has the format of a transaction hash.
pub fn tx_hash_format_ok(tx_hash: &str) -> (b: bool)
    ensures
        b == tx_hash_format(tx_hash),
        b <==> ("0x"@.is_prefix_of(tx_hash@) && tx_hash.len() > 10),
{
    proof {
        lemma_tx_hash_format_rule(tx_hash);
    }
    let n = tx_hash.unicode_len();
    n >= 2 && tx_hash.get_char(0) == '0' && tx_hash.get_char(1) == 'x' && tx_hash.len() > 10
}

/// A copy of a slice of numbers.
fn copy_numbers(s: &[i32]) -> (r: Vec<i32>)
    ensures
        r@ == s@,
{
    slice_to_vec(s)
}

/// The numbers of an optional list.
pub open spec fn numbers_view(o: Option<Vec<i32>>) -> Option<Seq<i32>> {
    match o {
        Some(v) => Some(v@),
        None => None,
    }
}

/// The in-memory ledger used in development, in place of the network.
pub struct MockLedger {
    tickets: IdStore<TicketOnChain>,
    draws: IdStore<DrawOnChain>,
    wallets: IdStore<i64>,
    rounds: TextStore<RoundOnChain>,
    issued: Ghost<Set<Seq<char>>>,
    clock: Ghost<Seq<i64>>,
}

impl MockLedger {
    #[verifier::type_invariant]
    spec fn stores_well_formed(self) -> bool {
        &&& self.tickets.well_formed()
        &&& self.draws.well_formed()
        &&& self.wallets.well_formed()
        &&& self.rounds.well_formed()
        &&& forall|k: u128| #[trigger]
            self.tickets@.contains_key(k) ==> self.issued@.contains(self.tickets@[k].tx_hash@)
        &&& forall|k: u128| #[trigger]
            self.draws@.contains_key(k) ==> self.issued@.contains(self.draws@[k].tx_hash@)
    }

    /// The transaction hashes that recordings of ticket purchases and draw
    /// results on this ledger have handed out.
    pub closed spec fn issued(self) -> Set<Seq<char>> {
        self.issued@
    }

    /// The seconds (since the Unix epoch, UTC) that this ledger's operations
    /// have read from the clock, in the order they read them.
    pub closed spec fn clock_reads(self) -> Seq<i64> {
        self.clock@
    }

    /// Tickets by ticket identifier.
    pub closed spec fn tickets(self) -> Map<u128, TicketOnChain> {
        self.tickets@
    }

    /// Draw results by draw identifier.
    pub closed spec fn draws(self) -> Map<u128, DrawOnChain> {
        self.draws@
    }

    /// Wallet balances in centimes by user identifier.
    pub closed spec fn wallets(self) -> Map<u128, i64> {
        self.wallets@
    }

    /// Rounds by round identifier.
    pub closed spec fn rounds(self) -> Map<Seq<char>, RoundOnChain> {
        self.rounds@
    }

    /// The balance of a user's wallet: zero where it has none.
    pub open spec fn wallet_balance(self, user_id: u128) -> int {
        if self.wallets().contains_key(user_id) {
            self.wallets()[user_id] as int
        } else {
            0
        }
    }

    /// Some ticket or draw result carries the transaction hash `h`.
    pub open spec fn has_transaction(self, h: Seq<char>) -> bool {
        ||| exists|k: u128| #[trigger]
            self.tickets().contains_key(k) && self.tickets()[k].tx_hash@ == h
        ||| exists|k: u128| #[trigger] self.draws().contains_key(k) && self.draws()[k].tx_hash@ == h
    }

    /// An empty ledger.
    pub fn new() -> (l: MockLedger)
        ensures
            l.tickets() == Map::<u128, TicketOnChain>::empty(),
            l.draws() == Map::<u128, DrawOnChain>::empty(),
            l.wallets() == Map::<u128, i64>::empty(),
            l.rounds() == Map::<Seq<char>, RoundOnChain>::empty(),
            l.issued() == Set::<Seq<char>>::empty(),
            l.clock_reads() == Seq::<i64>::empty(),
    {
        MockLedger {
            tickets: IdStore::new(),
            draws: IdStore::new(),
            wallets: IdStore::new(),
            rounds: TextStore::new(),
            issued: Ghost(Set::empty()),
            clock: Ghost(Seq::empty()),
        }
    }

    /// Reads the current second from the clock, and notes the reading.
    fn read_clock(&mut self) -> (t: i64)
        ensures
            0 <= t <= LATEST_UTC_SECONDS,
            final(self).clock_reads() == old(self).clock_reads().push(t),
            final(self).issued() == old(self).issued(),
            final(self).tickets() == old(self).tickets(),
            final(self).draws() == old(self).draws(),
            final(self).wallets() == old(self).wallets(),
            final(self).rounds() == old(self).rounds(),
    {
        proof {
            use_type_invariant(&*self);
        }
        let t = utc_now().0;
        self.clock = Ghost(self.clock@.push(t));
        t
    }

    /// Notes `tx_hash` as handed out.
    fn issue(&mut self, tx_hash: &String)
        ensures
            final(self).issued() == old(self).issued().insert(tx_hash@),
            final(self).clock_reads() == old(self).clock_reads(),
            final(self).tickets() == old(self).tickets(),
            final(self).draws() == old(self).draws(),
            final(self).wallets() == old(self).wallets(),
            final(self).rounds() == old(self).rounds(),
    {
        proof {
            use_type_invariant(&*self);
        }
        self.issued = Ghost(self.issued@.insert(tx_hash@));
    }

    /// Records a ticket under its identifier, replacing any earlier record.
    /// Its hash is one the ledger handed out.
    fn record_ticket(&mut self, ticket: TicketOnChain)
        requires
            old(self).issued().contains(ticket.tx_hash@),
        ensures
            final(self).issued() == old(self).issued(),
            final(self).clock_reads() == old(self).clock_reads(),
            final(self).tickets() == old(self).tickets().insert(ticket.ticket_id, ticket),
            final(self).draws() == old(self).draws(),
            final(self).wallets() == old(self).wallets(),
            final(self).rounds() == old(self).rounds(),
    {
        proof {
            use_type_invariant(&*self);
        }
        let mut tickets = IdStore::new();
        std::mem::swap(&mut tickets, &mut self.tickets);
        tickets.insert(ticket.ticket_id, ticket);
        self.tickets = tickets;
    }

    /// Records a ticket purchase with a new transaction hash and the current
    /// time, and returns the hash.
    pub fn record_ticket_purchase(
        &mut self,
        ticket_id: u128,
        user_id: u128,
        numbers: &[i32],
        draw_id: String,
    ) -> (tx_hash: String)
        ensures
            is_mock_tx_hash(tx_hash@),
            final(self).tickets() == old(self).tickets().insert(
                ticket_id,
                final(self).tickets()[ticket_id],
            ),
            final(self).tickets()[ticket_id].ticket_id == ticket_id,
            final(self).tickets()[ticket_id].user_id == user_id,
            final(self).tickets()[ticket_id].draw_id == draw_id,
            final(self).tickets()[ticket_id].numbers@ == numbers@,
            final(self).tickets()[ticket_id].tx_hash@ == tx_hash@,
            0 <= final(self).tickets()[ticket_id].timestamp <= LATEST_UTC_SECONDS,
            final(self).clock_reads() == old(self).clock_reads().push(
                final(self).tickets()[ticket_id].timestamp,
            ),
            final(self).issued() == old(self).issued().insert(tx_hash@),
            final(self).draws() == old(self).draws(),
            final(self).wallets() == old(self).wallets(),
            final(self).rounds() == old(self).rounds(),
    {
        let tx_hash = generate_mock_tx_hash();
        let timestamp = self.read_clock();
        let ticket = TicketOnChain {
            ticket_id,
            user_id,
            draw_id,
            numbers: copy_numbers(numbers),
            tx_hash: tx_hash.clone(),
            timestamp,
        };
        self.issue(&tx_hash);
        self.record_ticket(ticket);
        tx_hash
    }

    /// Records draw results under the draw identifier, replacing any earlier
    /// record. Their hash is one the ledger handed out.
    fn record_draw(&mut self, draw: DrawOnChain)
        requires
            old(self).issued().contains(draw.tx_hash@),
        ensures
            final(self).issued() == old(self).issued(),
            final(self).clock_reads() == old(self).clock_reads(),
            final(self).draws() == old(self).draws().insert(draw.draw_id, draw),
            final(self).tickets() == old(self).tickets(),
            final(self).wallets() == old(self).wallets(),
            final(self).rounds() == old(self).rounds(),
    {
        proof {
            use_type_invariant(&*self);
        }
        let mut draws = IdStore::new();
        std::mem::swap(&mut draws, &mut self.draws);
        draws.insert(draw.draw_id, draw);
        self.draws = draws;
    }

    /// Records the winning numbers of a draw with a new transaction hash and
    /// the current time, and returns the hash.
    pub fn record_draw_results(&mut self, draw_id: u128, winning_numbers: &[i32]) -> (tx_hash:
        String)
        ensures
            is_mock_tx_hash(tx_hash@),
            final(self).draws() == old(self).draws().insert(
                draw_id,
                final(self).draws()[draw_id],
            ),
            final(self).draws()[draw_id].draw_id == draw_id,
            final(self).draws()[draw_id].winning_numbers@ == winning_numbers@,
            final(self).draws()[draw_id].tx_hash@ == tx_hash@,
            0 <= final(self).draws()[draw_id].timestamp <= LATEST_UTC_SECONDS,
            final(self).clock_reads() == old(self).clock_reads().push(
                final(self).draws()[draw_id].timestamp,
            ),
            final(self).issued() == old(self).issued().insert(tx_hash@),
            final(self).tickets() == old(self).tickets(),
            final(self).wallets() == old(self).wallets(),
            final(self).rounds() == old(self).rounds(),
    {
        let tx_hash = generate_mock_tx_hash();
        let timestamp = self.read_clock();
        let draw = DrawOnChain {
            draw_id,
            winning_numbers: copy_numbers(winning_numbers),
            tx_hash: tx_hash.clone(),
            timestamp,
        };
        self.issue(&tx_hash);
        self.record_draw(draw);
        tx_hash
    }

    /// Whether some recorded ticket or draw result carries `tx_hash`.
    fn knows_transaction(&self, tx_hash: &str) -> (b: bool)
        ensures
            b == self.has_transaction(tx_hash@),
    {
        proof {
            use_type_invariant(self);
            self.tickets.lemma_slots();
            self.draws.lemma_slots();
        }
        let target = String::from_str(tx_hash);
        let mut i: usize = 0;
        while i < self.tickets.slots()
            invariant
                self.tickets.well_formed(),
                target@ == tx_hash@,
                i <= self.tickets.size(),
                forall|j: int|
                    0 <= j < i ==> #[trigger] self.tickets@[self.tickets.key_at(j)].tx_hash@
                        != tx_hash@,
            decreases self.tickets.size() - i,
        {
            let (k, t) = self.tickets.slot(i);
            if t.tx_hash == target {
                proof {
                    assert(self.tickets().contains_key(k) && self.tickets()[k].tx_hash@ == tx_hash@);
                }
                return true;
            }
            i = i + 1;
        }
        let mut i: usize = 0;
        while i < self.draws.slots()
            invariant
                self.draws.well_formed(),
                target@ == tx_hash@,
                i <= self.draws.size(),
                forall|j: int|
                    0 <= j < i ==> #[trigger] self.draws@[self.draws.key_at(j)].tx_hash@
                        != tx_hash@,
            decreases self.draws.size() - i,
        {
            let (k, d) = self.draws.slot(i);
            if d.tx_hash == target {
                proof {
                    assert(self.draws().contains_key(k) && self.draws()[k].tx_hash@ == tx_hash@);
                }
                return true;
            }
            i = i + 1;
        }
        proof {
            assert forall|k: u128| #[trigger]
                self.tickets().contains_key(k) implies self.tickets()[k].tx_hash@ != tx_hash@ by {
                let j = choose|j: int| 0 <= j < self.tickets.size() && self.tickets.key_at(j) == k;
                assert(self.tickets@[self.tickets.key_at(j)].tx_hash@ != tx_hash@);
            }
            assert forall|k: u128| #[trigger]
                self.draws().contains_key(k) implies self.draws()[k].tx_hash@ != tx_hash@ by {
                let j = choose|j: int| 0 <= j < self.draws.size() && self.draws.key_at(j) == k;
                assert(self.draws@[self.draws.key_at(j)].tx_hash@ != tx_hash@);
            }
        }
        false
    }

    /// Whether `tx_hash` has the format of a transaction hash and some ticket
    /// or draw result on the ledger carries it. Only a hash that a recording
    /// of a ticket purchase or of draw results on this ledger handed out can
    /// verify.
    pub fn verify_transaction(&self, tx_hash: &str) -> (b: bool)
        ensures
            b == (tx_hash_format(tx_hash) && self.has_transaction(tx_hash@)),
            b ==> self.issued().contains(tx_hash@),
    {
        proof {
            use_type_invariant(self);
        }
        let well_formed = tx_hash_format_ok(tx_hash);
        let known = self.knows_transaction(tx_hash);
        well_formed && known
    }

    /// The ticket recorded under `ticket_id`.
    pub fn verify_ticket(&self, ticket_id: u128) -> (r: Option<&TicketOnChain>)
        ensures
            r is Some <==> self.tickets().contains_key(ticket_id),
            r matches Some(t) ==> *t == self.tickets()[ticket_id],
    {
        proof {
            use_type_invariant(self);
        }
        self.tickets.get(ticket_id)
    }

    /// Opens a round named `round_id` that starts at `timestamp` (seconds)
    /// and lasts `duration_seconds`.
    pub fn open_round_at(&mut self, round_id: String, duration_seconds: i64, timestamp: i64)
        requires
            i64::MIN <= timestamp + duration_seconds <= i64::MAX,
        ensures
            final(self).rounds() == old(self).rounds().insert(
                round_id@,
                final(self).rounds()[round_id@],
            ),
            final(self).rounds()[round_id@].round_id@ == round_id@,
            final(self).rounds()[round_id@].status@ == "OPEN"@,
            final(self).rounds()[round_id@].start_time@ == int_text(timestamp as int),
            final(self).rounds()[round_id@].end_time@ == int_text(
                timestamp + duration_seconds,
            ),
            final(self).rounds()[round_id@].winning_numbers is None,
            final(self).tickets() == old(self).tickets(),
            final(self).issued() == old(self).issued(),
            final(self).clock_reads() == old(self).clock_reads(),
            final(self).draws() == old(self).draws(),
            final(self).wallets() == old(self).wallets(),
    {
        proof {
            use_type_invariant(&*self);
        }
        let mut start_time = String::new();
        push_i64_text(&mut start_time, timestamp);
        let mut end_time = String::new();
        push_i64_text(&mut end_time, timestamp + duration_seconds);
        let round = RoundOnChain {
            round_id: round_id.clone(),
            status: String::from_str("OPEN"),
            start_time,
            end_time,
            winning_numbers: None,
        };
        let mut rounds = TextStore::new();
        std::mem::swap(&mut rounds, &mut self.rounds);
        rounds.insert(round_id, round);
        self.rounds = rounds;
    }

    /// Starts a new round with a random identifier, open from now for
    /// `duration_seconds`, and returns the transaction hash and the round
    /// identifier. The end time must fit in an `i64`; otherwise the ledger is
    /// left unchanged and an error is returned. The end time fits whatever
    /// the clock reads when the duration keeps it in range from every time
    /// the clock can report.
    pub fn start_round(&mut self, duration_seconds: i64) -> (r: Result<
        (String, String),
        InfrastructureError,
    >)
        ensures
            duration_seconds <= i64::MAX - LATEST_UTC_SECONDS ==> r is Ok,
            final(self).clock_reads().len() == old(self).clock_reads().len() + 1,
            final(self).clock_reads().drop_last() == old(self).clock_reads(),
            0 <= final(self).clock_reads().last() <= LATEST_UTC_SECONDS,
            r is Ok <==> final(self).clock_reads().last() + duration_seconds <= i64::MAX,
            r matches Ok((_, round_id)) ==> {
                &&& final(self).rounds()[round_id@].start_time@ == int_text(
                    final(self).clock_reads().last() as int,
                )
                &&& final(self).rounds()[round_id@].end_time@ == int_text(
                    final(self).clock_reads().last() + duration_seconds,
                )
            },
            r matches Ok((tx_hash, round_id)) ==> {
                &&& is_mock_tx_hash(tx_hash@)
                &&& exists|u: u128| is_v4_uuid(u) && round_id@ == #[trigger] uuid_text(u)
                &&& final(self).rounds() == old(self).rounds().insert(
                    round_id@,
                    final(self).rounds()[round_id@],
                )
                &&& final(self).rounds()[round_id@].round_id@ == round_id@
                &&& final(self).rounds()[round_id@].status@ == "OPEN"@
                &&& final(self).rounds()[round_id@].winning_numbers is None
                &&& exists|t: int|
                    0 <= t <= LATEST_UTC_SECONDS && i64::MIN <= t + duration_seconds <= i64::MAX
                        && final(self).rounds()[round_id@].start_time@ == #[trigger] int_text(t)
                        && final(self).rounds()[round_id@].end_time@ == int_text(
                        t + duration_seconds,
                    )
            },
            r matches Err(e) ==> {
                &&& final(self).rounds() == old(self).rounds()
                &&& e matches InfrastructureError::Blockchain(m) && m@
                    == "round end time out of range"@
                &&& exists|t: int|
                    #![trigger int_text(t)]
                    0 <= t <= LATEST_UTC_SECONDS && t + duration_seconds > i64::MAX
            },
            final(self).tickets() == old(self).tickets(),
            final(self).issued() == old(self).issued(),
            final(self).draws() == old(self).draws(),
            final(self).wallets() == old(self).wallets(),
    {
        let id = random_uuid();
        let round_id = uuid_string(id);
        let tx_hash = generate_mock_tx_hash();
        let timestamp = self.read_clock();
        match timestamp.checked_add(duration_seconds) {
            Some(_) => {
                self.open_round_at(round_id.clone(), duration_seconds, timestamp);
                Ok((tx_hash, round_id))
            },
            None => {
                assert(int_text(timestamp as int) == int_text(timestamp as int));
                Err(
                    InfrastructureError::Blockchain(
                        String::from_str("round end time out of range"),
                    ),
                )
            },
        }
    }

    /// Marks the round named `round_id` closed, when it exists, and returns a
    /// new transaction hash.
    pub fn close_round(&mut self, round_id: &str) -> (tx_hash: String)
        ensures
            is_mock_tx_hash(tx_hash@),
            old(self).rounds().contains_key(round_id@) ==> {
                let before = old(self).rounds()[round_id@];
                let after = final(self).rounds()[round_id@];
                &&& final(self).rounds() == old(self).rounds().insert(round_id@, after)
                &&& after.status@ == "CLOSED"@
                &&& after.round_id@ == before.round_id@
                &&& after.start_time@ == before.start_time@
                &&& after.end_time@ == before.end_time@
                &&& numbers_view(after.winning_numbers) == numbers_view(before.winning_numbers)
            },
            !old(self).rounds().contains_key(round_id@) ==> final(self).rounds() == old(
                self,
            ).rounds(),
            final(self).tickets() == old(self).tickets(),
            final(self).issued() == old(self).issued(),
            final(self).clock_reads() == old(self).clock_reads(),
            final(self).draws() == old(self).draws(),
            final(self).wallets() == old(self).wallets(),
    {
        proof {
            use_type_invariant(&*self);
        }
        let updated = match self.rounds.get(round_id) {
            Some(r) => Some(
                RoundOnChain {
                    round_id: r.round_id.clone(),
                    status: String::from_str("CLOSED"),
                    start_time: r.start_time.clone(),
                    end_time: r.end_time.clone(),
                    winning_numbers: match &r.winning_numbers {
                        Some(w) => Some(copy_numbers(w.as_slice())),
                        None => None,
                    },
                },
            ),
            None => None,
        };
        match updated {
            Some(u) => {
                let mut rounds = TextStore::new();
                std::mem::swap(&mut rounds, &mut self.rounds);
                rounds.replace(round_id, u);
                self.rounds = rounds;
            },
            None => {},
        }
        generate_mock_tx_hash()
    }

    /// Marks the round named `round_id` finished with its winning numbers,
    /// when it exists, and returns a new transaction hash.
    pub fn end_round(&mut self, round_id: &str, winning_numbers: &[i32]) -> (tx_hash: String)
        ensures
            is_mock_tx_hash(tx_hash@),
            old(self).rounds().contains_key(round_id@) ==> {
                let before = old(self).rounds()[round_id@];
                let after = final(self).rounds()[round_id@];
                &&& final(self).rounds() == old(self).rounds().insert(round_id@, after)
                &&& after.status@ == "FINISHED"@
                &&& after.winning_numbers matches Some(w) && w@ == winning_numbers@
                &&& after.round_id@ == before.round_id@
                &&& after.start_time@ == before.start_time@
                &&& after.end_time@ == before.end_time@
            },
            !old(self).rounds().contains_key(round_id@) ==> final(self).rounds() == old(
                self,
            ).rounds(),
            final(self).tickets() == old(self).tickets(),
            final(self).issued() == old(self).issued(),
            final(self).clock_reads() == old(self).clock_reads(),
            final(self).draws() == old(self).draws(),
            final(self).wallets() == old(self).wallets(),
    {
        proof {
            use_type_invariant(&*self);
        }
        let updated = match self.rounds.get(round_id) {
            Some(r) => Some(
                RoundOnChain {
                    round_id: r.round_id.clone(),
                    status: String::from_str("FINISHED"),
                    start_time: r.start_time.clone(),
                    end_time: r.end_time.clone(),
                    winning_numbers: Some(copy_numbers(winning_numbers)),
                },
            ),
            None => None,
        };
        match updated {
            Some(u) => {
                let mut rounds = TextStore::new();
                std::mem::swap(&mut rounds, &mut self.rounds);
                rounds.replace(round_id, u);
                self.rounds = rounds;
            },
            None => {},
        }
        generate_mock_tx_hash()
    }

    /// An open round, if there is one. Which one, when several are open, is
    /// not specified.
    pub fn get_current_round(&self) -> (r: Option<&RoundOnChain>)
        ensures
            r is Some <==> exists|k: Seq<char>| #[trigger]
                self.rounds().contains_key(k) && self.rounds()[k].status@ == "OPEN"@,
            r matches Some(round) ==> round.status@ == "OPEN"@ && exists|k: Seq<char>| #[trigger]
                self.rounds().contains_key(k) && self.rounds()[k] == *round,
    {
        proof {
            use_type_invariant(self);
            self.rounds.lemma_slots();
        }
        let open = String::from_str("OPEN");
        let mut i: usize = 0;
        while i < self.rounds.slots()
            invariant
                self.rounds.well_formed(),
                open@ == "OPEN"@,
                i <= self.rounds.size(),
                forall|j: int|
                    0 <= j < i ==> #[trigger] self.rounds@[self.rounds.key_at(j)].status@
                        != "OPEN"@,
            decreases self.rounds.size() - i,
        {
            let r = self.rounds.slot(i);
            if r.status == open {
                return Some(r);
            }
            i = i + 1;
        }
        proof {
            assert forall|k: Seq<char>| #[trigger]
                self.rounds().contains_key(k) implies self.rounds()[k].status@ != "OPEN"@ by {
                let j = choose|j: int| 0 <= j < self.rounds.size() && self.rounds.key_at(j) == k;
                assert(self.rounds@[self.rounds.key_at(j)].status@ != "OPEN"@);
            }
        }
        None
    }

    /// The round named `round_id`.
    pub fn get_round(&self, round_id: &str) -> (r: Option<&RoundOnChain>)
        ensures
            r is Some <==> self.rounds().contains_key(round_id@),
            r matches Some(round) ==> *round == self.rounds()[round_id@],
    {
        proof {
            use_type_invariant(self);
        }
        self.rounds.get(round_id)
    }

    /// The balance of a user's wallet, zero where it has none.
    fn balance_of(&self, user_id: u128) -> (b: i64)
        ensures
            b == self.wallet_balance(user_id),
    {
        proof {
            use_type_invariant(self);
        }
        match self.wallets.get(user_id) {
            Some(b) => *b,
            None => 0,
        }
    }

    /// Sets a user's wallet balance.
    fn set_balance(&mut self, user_id: u128, balance: i64)
        ensures
            final(self).wallets() == old(self).wallets().insert(user_id, balance),
            final(self).tickets() == old(self).tickets(),
            final(self).issued() == old(self).issued(),
            final(self).clock_reads() == old(self).clock_reads(),
            final(self).draws() == old(self).draws(),
            final(self).rounds() == old(self).rounds(),
    {
        proof {
            use_type_invariant(&*self);
        }
        let mut wallets = IdStore::new();
        std::mem::swap(&mut wallets, &mut self.wallets);
        wallets.insert(user_id, balance);
        self.wallets = wallets;
    }

    /// Creates a wallet with a zero balance for a user (resetting an existing
    /// one) and returns its JSON text.
    pub fn create_wallet(&mut self, user_id: u128) -> (r: String)
        ensures
            r@ == wallet_json(user_id, 0),
            final(self).wallets() == old(self).wallets().insert(user_id, 0),
            final(self).tickets() == old(self).tickets(),
            final(self).issued() == old(self).issued(),
            final(self).clock_reads() == old(self).clock_reads(),
            final(self).draws() == old(self).draws(),
            final(self).rounds() == old(self).rounds(),
    {
        self.set_balance(user_id, 0);
        wallet_text(user_id, 0)
    }

    /// Adds `amount_centimes` to a user's wallet (creating it when missing)
    /// and returns its JSON text with the new balance.
    pub fn deposit(&mut self, user_id: u128, amount_centimes: i64) -> (r: String)
        requires
            i64::MIN <= old(self).wallet_balance(user_id) + amount_centimes <= i64::MAX,
        ensures
            final(self).wallets() == old(self).wallets().insert(
                user_id,
                (old(self).wallet_balance(user_id) + amount_centimes) as i64,
            ),
            r@ == wallet_json(user_id, old(self).wallet_balance(user_id) + amount_centimes),
            final(self).tickets() == old(self).tickets(),
            final(self).issued() == old(self).issued(),
            final(self).clock_reads() == old(self).clock_reads(),
            final(self).draws() == old(self).draws(),
            final(self).rounds() == old(self).rounds(),
    {
        let balance = self.balance_of(user_id) + amount_centimes;
        self.set_balance(user_id, balance);
        wallet_text(user_id, balance)
    }

    /// Takes `amount_centimes` from a user's wallet and returns its JSON text
    /// with the new balance; refused, with the wallet unchanged, when the
    /// balance does not cover the amount. A missing wallet is created with a
    /// zero balance either way.
    pub fn withdraw(&mut self, user_id: u128, amount_centimes: i64) -> (r: Result<
        String,
        InfrastructureError,
    >)
        requires
            old(self).wallet_balance(user_id) - amount_centimes <= i64::MAX,
        ensures
            r is Ok <==> withdrawn(old(self).wallet_balance(user_id), amount_centimes as int) is Some,
            r matches Ok(text) ==> {
                let after = old(self).wallet_balance(user_id) - amount_centimes;
                &&& final(self).wallets() == old(self).wallets().insert(user_id, after as i64)
                &&& text@ == wallet_json(user_id, after)
            },
            r matches Err(e) ==> {
                &&& final(self).wallets() == old(self).wallets().insert(
                    user_id,
                    old(self).wallet_balance(user_id) as i64,
                )
                &&& e matches InfrastructureError::Blockchain(m) && m@
                    == insufficient_funds_message(
                    old(self).wallet_balance(user_id),
                    amount_centimes as int,
                )
            },
            final(self).tickets() == old(self).tickets(),
            final(self).issued() == old(self).issued(),
            final(self).clock_reads() == old(self).clock_reads(),
            final(self).draws() == old(self).draws(),
            final(self).rounds() == old(self).rounds(),
    {
        let balance = self.balance_of(user_id);
        self.set_balance(user_id, balance);
        if balance < amount_centimes {
            let mut m = String::from_str("Insufficient balance: have ");
            push_i64_text(&mut m, balance);
            m.append(", need ");
            push_i64_text(&mut m, amount_centimes);
            return Err(InfrastructureError::Blockchain(m));
        }
        let after = balance - amount_centimes;
        self.set_balance(user_id, after);
        Ok(wallet_text(user_id, after))
    }

    /// The wallet of a user: its balance (zero where it has none) and whether
    /// it exists.
    pub fn get_wallet_balance(&self, user_id: u128) -> (w: WalletOnChain)
        ensures
            w.user_id@ == uuid_text(user_id),
            w.balance_centimes == self.wallet_balance(user_id),
            w.exists == self.wallets().contains_key(user_id),
    {
        proof {
            use_type_invariant(self);
        }
        let exists = self.wallets.get(user_id).is_some();
        WalletOnChain {
            user_id: uuid_string(user_id),
            balance_centimes: self.balance_of(user_id),
            exists,
        }
    }
}

/// The JSON text of a wallet.
fn wallet_text(user_id: u128, balance: i64) -> (r: String)
    ensures
        r@ == wallet_json(user_id, balance as int),
{
    let mut r = String::from_str("{\"userId\":\"");
    let id = uuid_string(user_id);
    r.append(id.as_str());
    r.append("\",\"balanceCentimes\":");
    push_i64_text(&mut r, balance);
    r.append("}");
    r
}

/// The peer URLs that select the in-memory ledger: none, `mock`, or the
/// default local peer.
pub open spec fn is_mock_peer_url(url: Seq<char>) -> bool {
    url.len() == 0 || url == "mock"@ || url == "localhost:7051"@
}

/// The adapter to Hyperledger Fabric: the network settings, the command-line
/// container that runs the peer commands, and the in-memory ledger used when
/// no real network is configured.
pub struct HyperledgerAdapter {
    pub peer_url: String,
    pub channel_name: String,
    pub chaincode_name: String,
    pub cli_container: String,
    pub ledger: MockLedger,
    pub mock_mode: bool,
}

impl HyperledgerAdapter {
    /// An adapter configured from `config`, with an empty in-memory ledger.
    pub fn new(config: &Config) -> (a: HyperledgerAdapter)
        ensures
            a.peer_url@ == config.hyperledger_peer_url@,
            a.channel_name@ == config.hyperledger_channel_name@,
            a.chaincode_name@ == config.hyperledger_chaincode_name@,
            a.cli_container@ == "ivoirechain-cli"@,
            a.mock_mode == is_mock_peer_url(config.hyperledger_peer_url@),
            a.ledger.tickets() == Map::<u128, TicketOnChain>::empty(),
            a.ledger.draws() == Map::<u128, DrawOnChain>::empty(),
            a.ledger.wallets() == Map::<u128, i64>::empty(),
            a.ledger.rounds() == Map::<Seq<char>, RoundOnChain>::empty(),
    {
        let url = &config.hyperledger_peer_url;
        let mock_mode = url.as_str().unicode_len() == 0 || *url == String::from_str("mock") || *url
            == String::from_str("localhost:7051");
        HyperledgerAdapter {
            peer_url: url.clone(),
            channel_name: config.hyperledger_channel_name.clone(),
            chaincode_name: config.hyperledger_chaincode_name.clone(),
            cli_container: String::from_str("ivoirechain-cli"),
            ledger: MockLedger::new(),
            mock_mode,
        }
    }
}

/// The transaction identifier in the output of `peer chaincode invoke`: the
/// text between the first `txid [` and the first `] committed` after it.
pub open spec fn extracted_tx_id(text: Seq<char>) -> Option<Seq<char>> {
    match first_occurrence(text, "txid ["@) {
        Some(start) => match first_occurrence(text.subrange(start, text.len() as int), "] committed"@) {
            Some(end) => Some(text.subrange(start + 6, start + end)),
            None => None,
        },
        None => None,
    }
}

/// The transaction hash read from the output of `peer chaincode invoke`:
/// `0x` and the transaction identifier, or, when the output holds none, `0x`
/// and the hexadecimal of its first 16 bytes.
pub open spec fn invoke_tx_hash(stdout: Seq<u8>) -> Seq<char> {
    match extracted_tx_id(lossy_text(stdout)) {
        Some(id) => "0x"@ + id,
        None => "0x"@ + hex_lower(
            stdout.subrange(
                0,
                if stdout.len() < 16 {
                    stdout.len() as int
                } else {
                    16
                },
            ),
        ),
    }
}

/// `needle` occurs in the text from `start` at `j` exactly when it occurs in
/// the whole text at `start + j`.
proof fn lemma_occurs_in_suffix(hay: Seq<char>, needle: Seq<char>, start: int, j: int)
    requires
        0 <= start <= hay.len(),
    ensures
        occurs_at(hay.subrange(start, hay.len() as int), needle, j) <==> (j >= 0 && occurs_at(
            hay,
            needle,
            start + j,
        )),
{
    let suffix = hay.subrange(start, hay.len() as int);
    if j >= 0 && j + needle.len() <= suffix.len() {
        assert(suffix.subrange(j, j + needle.len()) =~= hay.subrange(
            start + j,
            start + j + needle.len(),
        ));
    }
}

/// Reads the transaction hash from the raw output of `peer chaincode invoke`.
pub fn tx_hash_from_invoke_output(stdout: &[u8]) -> (h: String)
    ensures
        h@ == invoke_tx_hash(stdout@),
{
    let text = utf8_lossy(stdout);
    let chars = chars_of(text.as_str());
    let open_marker = chars_of("txid [");
    let close_marker = chars_of("] committed");
    proof {
        reveal_strlit("txid [");
        reveal_strlit("] committed");
    }
    match find_text(&chars, &open_marker) {
        Some(start) => {
            let found = find_from(&chars, &close_marker, start);
            let ghost suffix = chars@.subrange(start as int, chars@.len() as int);
            match found {
                Some(end) => {
                    proof {
                        // The end marker cannot start inside the start marker.
                        assert(end >= start + 6) by {
                            if end < start + 6 {
                                assert(chars@.subrange(end as int, end + close_marker@.len())[0]
                                    == chars@[end as int]);
                                assert(chars@[end as int] == ']');
                                assert(chars@.subrange(start as int, start + 6)[end - start]
                                    == chars@[end as int]);
                                assert(chars@[end as int] == open_marker@[end - start]);
                            }
                        }
                        let e = end - start;
                        lemma_occurs_in_suffix(chars@, close_marker@, start as int, e);
                        assert forall|j: int| 0 <= j < e implies !occurs_at(
                            suffix,
                            close_marker@,
                            j,
                        ) by {
                            lemma_occurs_in_suffix(chars@, close_marker@, start as int, j);
                        }
                        assert(is_first_occurrence(suffix, close_marker@, e));
                        let k = choose|k: int| is_first_occurrence(suffix, close_marker@, k);
                        if k < e {
                            assert(!occurs_at(suffix, close_marker@, k));
                        } else if e < k {
                            assert(!occurs_at(suffix, close_marker@, e));
                        }
                    }
                    let id = text.as_str().substring_char(start + 6, end);
                    let mut h = String::from_str("0x");
                    h.append(id);
                    h
                },
                None => {
                    proof {
                        assert forall|j: int| !occurs_at(suffix, close_marker@, j) by {
                            lemma_occurs_in_suffix(chars@, close_marker@, start as int, j);
                        }
                    }
                    hex_of_output(stdout)
                },
            }
        },
        None => hex_of_output(stdout),
    }
}

/// `0x` and the hexadecimal of the first 16 bytes of `stdout`.
fn hex_of_output(stdout: &[u8]) -> (h: String)
    ensures
        h@ == "0x"@ + hex_lower(
            stdout@.subrange(
                0,
                if stdout@.len() < 16 {
                    stdout@.len() as int
                } else {
                    16
                },
            ),
        ),
{
    let n: usize = if stdout.len() < 16 {
        stdout.len()
    } else {
        16
    };
    let prefix = slice_subrange(stdout, 0, n);
    let hex = hex_encode(prefix);
    let mut h = String::from_str("0x");
    h.append(hex.as_str());
    h
}

/// The ticket read from the answer to a `getTicket` query. `response` is the
/// raw answer and `parsed` its fields, where it parsed as JSON. An empty
/// answer, or one saying the ticket does not exist, gives no ticket; so does
/// an answer that lacks the user, the draw, the numbers or the hash. An
/// unreadable user identifier reads as the nil UUID and an unreadable
/// timestamp as 0.
pub fn ticket_from_query(
    ticket_id: u128,
    response: &str,
    parsed: Option<ChaincodeResponse>,
) -> (r: Option<TicketOnChain>)
    ensures
        (is_blank(response@) || contains_text(response@, "does not exist"@)) ==> r is None,
        !(is_blank(response@) || contains_text(response@, "does not exist"@)) ==> match parsed {
            Some(
                ChaincodeResponse {
                    user_id: Some(u),
                    draw_id: Some(d),
                    numbers: Some(ns),
                    tx_hash: Some(h),
                    timestamp: ts,
                    ..
                },
            ) => r matches Some(t) && t == (TicketOnChain {
                ticket_id,
                user_id: match parsed_uuid(u@) {
                    Some(x) => x,
                    None => 0,
                },
                draw_id: d,
                numbers: ns,
                tx_hash: h,
                timestamp: match ts {
                    Some(s) => match parsed_i64(s@) {
                        Some(v) => v,
                        None => 0,
                    },
                    None => 0,
                },
            }),
            _ => r is None,
        },
{
    if is_blank_str(response) || contains_str(response, "does not exist") {
        return None;
    }
    match parsed {
        Some(cr) => match (cr.user_id, cr.draw_id, cr.numbers, cr.tx_hash) {
            (Some(u), Some(draw_id), Some(numbers), Some(tx_hash)) => {
                let user_id = match parse_uuid(u.as_str()) {
                    Some(x) => x,
                    None => 0,
                };
                let timestamp = match cr.timestamp {
                    Some(s) => match parse_i64(s.as_str()) {
                        Some(v) => v,
                        None => 0,
                    },
                    None => 0,
                };
                Some(TicketOnChain { ticket_id, user_id, draw_id, numbers, tx_hash, timestamp })
            },
            _ => None,
        },
        None => None,
    }
}

/// The round read from the answer to a `getRound` query: none for an empty
/// answer, one saying the round does not exist, or one that did not parse.
pub fn round_from_query(response: &str, parsed: Option<RoundOnChain>) -> (r: Option<RoundOnChain>)
    ensures
        (is_blank(response@) || contains_text(response@, "does not exist"@)) ==> r is None,
        !(is_blank(response@) || contains_text(response@, "does not exist"@)) ==> r == parsed,
{
    if is_blank_str(response) || contains_str(response, "does not exist") {
        None
    } else {
        parsed
    }
}

/// The round read from the answer to a `getCurrentRound` query: none for an
/// empty answer or one that did not parse.
pub fn current_round_from_query(response: &str, parsed: Option<RoundOnChain>) -> (r: Option<
    RoundOnChain,
>)
    ensures
        is_blank(response@) ==> r is None,
        !is_blank(response@) ==> r == parsed,
{
    if is_blank_str(response) {
        None
    } else {
        parsed
    }
}

/// What a run of `peer chaincode invoke` gives: when the command failed, an
/// error with the text of its standard error; otherwise the transaction hash
/// read from its standard output.
pub fn invoke_result(success: bool, stdout: &[u8], stderr: &[u8]) -> (r: Result<
    String,
    InfrastructureError,
>)
    ensures
        !success ==> (r matches Err(InfrastructureError::Blockchain(m)) && m@
            == "Chaincode invoke failed: "@ + lossy_text(stderr@)),
        success ==> (r matches Ok(h) && h@ == invoke_tx_hash(stdout@)),
{
    if success {
        Ok(tx_hash_from_invoke_output(stdout))
    } else {
        let mut m = String::from_str("Chaincode invoke failed: ");
        let text = utf8_lossy(stderr);
        m.append(text.as_str());
        Err(InfrastructureError::Blockchain(m))
    }
}

/// What a run of `peer chaincode query` gives: when the command failed, an
/// error with the text of its standard error; otherwise the text of its
/// standard output.
pub fn query_result(success: bool, stdout: &[u8], stderr: &[u8]) -> (r: Result<
    String,
    InfrastructureError,
>)
    ensures
        !success ==> (r matches Err(InfrastructureError::Blockchain(m)) && m@
            == "Chaincode query failed: "@ + lossy_text(stderr@)),
        success ==> (r matches Ok(t) && t@ == lossy_text(stdout@)),
{
    if success {
        Ok(utf8_lossy(stdout))
    } else {
        let mut m = String::from_str("Chaincode query failed: ");
        let text = utf8_lossy(stderr);
        m.append(text.as_str());
        Err(InfrastructureError::Blockchain(m))
    }
}

/// The numbers of `s` joined by `,`.
pub open spec fn comma_joined(s: Seq<i32>) -> Seq<char>
    decreases s.len(),
{
    if s.len() == 0 {
        seq![]
    } else if s.len() == 1 {
        int_text(s[0] as int)
    } else {
        comma_joined(s.drop_last()) + ","@ + int_text(s.last() as int)
    }
}

/// The JSON array of a list of numbers, as `serde_json::to_string` writes
/// it: `[5,12,23]`.
pub open spec fn numbers_json(s: Seq<i32>) -> Seq<char> {
    "["@ + comma_joined(s) + "]"@
}

/// Writes a list of numbers as a JSON array.
pub fn numbers_json_text(numbers: &[i32]) -> (r: String)
    ensures
        r@ == numbers_json(numbers@),
{
    let mut r = String::from_str("[");
    let mut i: usize = 0;
    while i < numbers.len()
        invariant
            i <= numbers@.len(),
            r@ == "["@ + comma_joined(numbers@.subrange(0, i as int)),
        decreases numbers@.len() - i,
    {
        if i > 0 {
            r.append(",");
        }
        push_i64_text(&mut r, numbers[i] as i64);
        proof {
            let t = numbers@.subrange(0, i + 1);
            assert(t.drop_last() == numbers@.subrange(0, i as int));
            assert(t.last() == numbers@[i as int]);
            if i == 0 {
                assert(comma_joined(numbers@.subrange(0, 0)) == Seq::<char>::empty());
            }
            assert(r@ =~= "["@ + comma_joined(t));
        }
        i = i + 1;
    }
    r.append("]");
    assert(numbers@.subrange(0, numbers@.len() as int) == numbers@);
    r
}

/// The arguments of the chaincode's `recordTicketPurchase`: the ticket, the
/// user, the numbers as JSON, the draw, the price in FCFA (500) and the
/// reference of the payment.
pub fn ticket_purchase_args(
    ticket_id: u128,
    user_id: u128,
    numbers: &[i32],
    draw_id: &str,
    reference: u128,
) -> (r: Vec<String>)
    ensures
        r@.len() == 6,
        r@[0]@ == uuid_text(ticket_id),
        r@[1]@ == uuid_text(user_id),
        r@[2]@ == numbers_json(numbers@),
        r@[3]@ == draw_id@,
        r@[4]@ == "500"@,
        r@[5]@ == uuid_text(reference),
{
    let mut r: Vec<String> = Vec::new();
    r.push(uuid_string(ticket_id));
    r.push(uuid_string(user_id));
    r.push(numbers_json_text(numbers));
    r.push(String::from_str(draw_id));
    r.push(String::from_str("500"));
    r.push(uuid_string(reference));
    r
}

/// The arguments of the chaincode's `recordDrawResults`: the draw, the
/// winning numbers as JSON, and the current time as `chrono` writes it with
/// the format `%Y-%m-%dT%H:%M:%SZ`.
pub fn draw_results_args(draw_id: u128, winning_numbers: &[i32]) -> (r: Vec<String>)
    ensures
        r@.len() == 3,
        r@[0]@ == uuid_text(draw_id),
        r@[1]@ == numbers_json(winning_numbers@),
        exists|t: i64| 0 <= t <= LATEST_UTC_SECONDS && r@[2]@ == #[trigger] utc_seconds_text(t),
{
    let mut r: Vec<String> = Vec::new();
    r.push(uuid_string(draw_id));
    r.push(numbers_json_text(winning_numbers));
    let secs = utc_now().0;
    r.push(format_utc_seconds(secs));
    r
}

/// Whether the output of `docker ps` lists the container `name`: its text
/// mentions the name.
pub fn container_listed(stdout: &[u8], name: &str) -> (b: bool)
    ensures
        b == contains_text(lossy_text(stdout@), name@),
{
    let text = utf8_lossy(stdout);
    contains_str(text.as_str(), name)
}

/// The arguments of the chaincode's `endRound`: the round and the winning
/// numbers as JSON.
pub fn end_round_args(round_id: &str, winning_numbers: &[i32]) -> (r: Vec<String>)
    ensures
        r@.len() == 2,
        r@[0]@ == round_id@,
        r@[1]@ == numbers_json(winning_numbers@),
{
    let mut r: Vec<String> = Vec::new();
    r.push(String::from_str(round_id));
    r.push(numbers_json_text(winning_numbers));
    r
}

/// The arguments of the chaincode's `deposit` and `withdraw`: the user, the
/// amount in centimes and the reference of the payment.
pub fn wallet_args(user_id: u128, amount_centimes: i64, reference: &str) -> (r: Vec<String>)
    ensures
        r@.len() == 3,
        r@[0]@ == uuid_text(user_id),
        r@[1]@ == int_text(amount_centimes as int),
        r@[2]@ == reference@,
{
    let mut r: Vec<String> = Vec::new();
    r.push(uuid_string(user_id));
    let mut amount = String::new();
    push_i64_text(&mut amount, amount_centimes);
    assert(amount@ =~= int_text(amount_centimes as int));
    r.push(amount);
    r.push(String::from_str(reference));
    r
}

/// The wallet answered for a user: the one the network returned, when its
/// answer to `getWallet` was read (`parsed`); otherwise, when the query failed
/// or its answer did not parse, the wallet on the in-memory ledger.
pub fn wallet_from_query(parsed: Option<WalletOnChain>, ledger: &MockLedger, user_id: u128) -> (w:
    WalletOnChain)
    ensures
        parsed matches Some(p) ==> w == p,
        parsed is None ==> {
            &&& w.user_id@ == uuid_text(user_id)
            &&& w.balance_centimes == ledger.wallet_balance(user_id)
            &&& w.exists == ledger.wallets().contains_key(user_id)
        },
{
    match parsed {
        Some(p) => p,
        None => ledger.get_wallet_balance(user_id),
    }
}

/// Whether the answer to a `healthCheck` query reports health: it mentions
/// `OK` or `healthy`.
pub fn health_response_ok(response: &str) -> (b: bool)
    ensures
        b == (contains_text(response@, "OK"@) || contains_text(response@, "healthy"@)),
{
    contains_str(response, "OK") || contains_str(response, "healthy")
}

/// What the health check reports: healthy in development (`mock_mode`); on a
/// real network, healthy when the command-line container runs and the answer
/// to the `healthCheck` query (`None` when the query failed or was not made)
/// reports health.
pub fn health_answer(mock_mode: bool, container_running: bool, answer: Option<&str>) -> (b: bool)
    ensures
        b == (mock_mode || (container_running && match answer {
            Some(a) => contains_text(a@, "OK"@) || contains_text(a@, "healthy"@),
            None => false,
        })),
{
    if mock_mode {
        return true;
    }
    if !container_running {
        return false;
    }
    match answer {
        Some(a) => health_response_ok(a),
        None => false,
    }
}

/// The operations of the ledger adapter.
#[derive(Debug, Clone, Copy, PartialEq, Eq, Structural)]
pub enum LedgerOp {
    RecordTicketPurchase,
    RecordDrawResults,
    VerifyTransaction,
    VerifyTicket,
    StartRound,
    CloseRound,
    EndRound,
    GetCurrentRound,
    GetRound,
    CreateWallet,
    Deposit,
    Withdraw,
    GetWalletBalance,
}

/// How the adapter serves an operation.
#[derive(Debug, Clone, Copy, PartialEq, Eq, Structural)]
pub struct Route {
    /// The peer network is asked; otherwise the in-memory ledger answers.
    pub try_network: bool,
    /// The network is asked only while the command-line container runs;
    /// otherwise the in-memory ledger answers.
    pub needs_container: bool,
    /// When the network call fails, the in-memory ledger answers; otherwise
    /// the failure is returned.
    pub falls_back: bool,
}

/// How the adapter serves `op`: the network is asked unless in development;
/// the recording and verifying operations ask it only while the container
/// runs; the reads and the wallet operations fall back to the in-memory
/// ledger when it fails, the round changes and the recordings do not.
pub open spec fn spec_route(op: LedgerOp, mock_mode: bool) -> Route {
    Route {
        try_network: !mock_mode,
        needs_container: op is RecordTicketPurchase || op is RecordDrawResults
            || op is VerifyTransaction || op is VerifyTicket,
        falls_back: op is VerifyTicket || op is GetCurrentRound || op is GetRound
            || op is CreateWallet || op is Deposit || op is Withdraw || op is GetWalletBalance,
    }
}

/// How the adapter serves `op`.
pub fn route(op: LedgerOp, mock_mode: bool) -> (r: Route)
    ensures
        r == spec_route(op, mock_mode),
{
    let needs_container = match op {
        LedgerOp::RecordTicketPurchase
        | LedgerOp::RecordDrawResults
        | LedgerOp::VerifyTransaction
        | LedgerOp::VerifyTicket => true,
        _ => false,
    };
    let falls_back = match op {
        LedgerOp::VerifyTicket
        | LedgerOp::GetCurrentRound
        | LedgerOp::GetRound
        | LedgerOp::CreateWallet
        | LedgerOp::Deposit
        | LedgerOp::Withdraw
        | LedgerOp::GetWalletBalance => true,
        _ => false,
    };
    Route { try_network: !mock_mode, needs_container, falls_back }
}

/// The identifier of a round just started on the network: that of the
/// current round read back, or a new random version-4 UUID when none could
/// be read.
pub fn started_round_id(current: Option<RoundOnChain>) -> (id: String)
    ensures
        current matches Some(r) ==> id == r.round_id,
        current is None ==> exists|u: u128| is_v4_uuid(u) && id@ == #[trigger] uuid_text(u),
{
    match current {
        Some(r) => r.round_id,
        None => {
            let u = random_uuid();
            uuid_string(u)
        },
    }
}

/// A transaction recorded with draw results is verified afterwards: its hash
/// has the checked format and the ledger knows it.
pub proof fn lemma_recorded_draw_verifies(ledger: MockLedger, draw_id: u128, h: &str)
    requires
        ledger.draws().contains_key(draw_id),
        ledger.draws()[draw_id].tx_hash@ == h@,
        is_mock_tx_hash(h@),
    ensures
        tx_hash_format(h) && ledger.has_transaction(h@),
{
    lemma_mock_tx_hash_format(h);
}

/// A transaction recorded with a ticket is verified afterwards: its hash has
/// the checked format and the ledger knows it.
pub proof fn lemma_recorded_ticket_verifies(ledger: MockLedger, ticket_id: u128, h: &str)
    requires
        ledger.tickets().contains_key(ticket_id),
        ledger.tickets()[ticket_id].tx_hash@ == h@,
        is_mock_tx_hash(h@),
    ensures
        tx_hash_format(h) && ledger.has_transaction(h@),
{
    lemma_mock_tx_hash_format(h);
}

/// A ticket purchase recorded on the ledger is found again: looking up its
/// identifier gives the ticket with the user, draw and numbers it was
/// recorded with, its transaction hash verifies, and every other ticket is
/// as it was.
pub proof fn lemma_recorded_purchase_found(
    before: MockLedger,
    after: MockLedger,
    ticket_id: u128,
    user_id: u128,
    numbers: Seq<i32>,
    draw_id: Seq<char>,
    tx_hash: &str,
    other: u128,
)
    requires
        is_mock_tx_hash(tx_hash@),
        after.tickets() == before.tickets().insert(ticket_id, after.tickets()[ticket_id]),
        after.tickets()[ticket_id].ticket_id == ticket_id,
        after.tickets()[ticket_id].user_id == user_id,
        after.tickets()[ticket_id].draw_id@ == draw_id,
        after.tickets()[ticket_id].numbers@ == numbers,
        after.tickets()[ticket_id].tx_hash@ == tx_hash@,
    ensures
        after.tickets().contains_key(ticket_id),
        after.tickets()[ticket_id].user_id == user_id,
        after.tickets()[ticket_id].draw_id@ == draw_id,
        after.tickets()[ticket_id].numbers@ == numbers,
        tx_hash_format(tx_hash) && after.has_transaction(tx_hash@),
        other != ticket_id ==> {
            &&& after.tickets().contains_key(other) == before.tickets().contains_key(other)
            &&& before.tickets().contains_key(other) ==> after.tickets()[other]
                == before.tickets()[other]
        },
{
    lemma_recorded_ticket_verifies(after, ticket_id, tx_hash);
}

/// A round started on the ledger is found again under its identifier, open
/// and without winning numbers, and its end time read back as a number is its
/// start time read back plus the duration; every other round is as it was.
pub proof fn lemma_started_round_read_back(
    before: MockLedger,
    after: MockLedger,
    round_id: Seq<char>,
    duration_seconds: i64,
    other: Seq<char>,
)
    requires
        after.rounds() == before.rounds().insert(round_id, after.rounds()[round_id]),
        after.rounds()[round_id].round_id@ == round_id,
        after.rounds()[round_id].status@ == "OPEN"@,
        after.rounds()[round_id].winning_numbers is None,
        exists|t: int|
            0 <= t <= LATEST_UTC_SECONDS && i64::MIN <= t + duration_seconds <= i64::MAX
                && after.rounds()[round_id].start_time@ == #[trigger] int_text(t)
                && after.rounds()[round_id].end_time@ == int_text(t + duration_seconds),
    ensures
        after.rounds().contains_key(round_id),
        after.rounds()[round_id].round_id@ == round_id,
        after.rounds()[round_id].status@ == "OPEN"@,
        after.rounds()[round_id].winning_numbers is None,
        parsed_i64(after.rounds()[round_id].start_time@) matches Some(start) && parsed_i64(
            after.rounds()[round_id].end_time@,
        ) == Some((start + duration_seconds) as i64),
        other != round_id ==> {
            &&& after.rounds().contains_key(other) == before.rounds().contains_key(other)
            &&& before.rounds().contains_key(other) ==> after.rounds()[other]
                == before.rounds()[other]
        },
{
    let t = choose|t: int|
        0 <= t <= LATEST_UTC_SECONDS && i64::MIN <= t + duration_seconds <= i64::MAX
            && after.rounds()[round_id].start_time@ == #[trigger] int_text(t)
            && after.rounds()[round_id].end_time@ == int_text(t + duration_seconds);
    lemma_int_text_parses(t, i64::MIN as int, i64::MAX as int);
    lemma_int_text_parses(t + duration_seconds, i64::MIN as int, i64::MAX as int);
}

/// A round started on the ledger starts at the second that the start read
/// from the clock and ends the duration later: read back as numbers, its
/// start time is that reading and its end time the reading plus the
/// duration.
pub proof fn lemma_round_follows_the_clock(after: MockLedger, round_id: Seq<char>, duration_seconds: i64)
    requires
        after.clock_reads().len() > 0,
        i64::MIN <= after.clock_reads().last() + duration_seconds <= i64::MAX,
        after.rounds()[round_id].start_time@ == int_text(after.clock_reads().last() as int),
        after.rounds()[round_id].end_time@ == int_text(
            after.clock_reads().last() + duration_seconds,
        ),
    ensures
        parsed_i64(after.rounds()[round_id].start_time@) == Some(after.clock_reads().last()),
        parsed_i64(after.rounds()[round_id].end_time@) == Some(
            (after.clock_reads().last() + duration_seconds) as i64,
        ),
{
    let t = after.clock_reads().last();
    lemma_int_text_parses(t as int, i64::MIN as int, i64::MAX as int);
    lemma_int_text_parses(t + duration_seconds, i64::MIN as int, i64::MAX as int);
}

/// No hash verifies on a ledger that holds no ticket and no draw result, such
/// as a fresh one.
pub proof fn lemma_fresh_ledger_verifies_nothing(ledger: MockLedger, h: Seq<char>)
    requires
        ledger.tickets() == Map::<u128, TicketOnChain>::empty(),
        ledger.draws() == Map::<u128, DrawOnChain>::empty(),
    ensures
        !ledger.has_transaction(h),
{
}

/// Depositing an amount into a wallet whose balance is not negative and then
/// withdrawing the same amount succeeds and gives back the balance from
/// before the deposit.
pub proof fn lemma_deposit_then_withdraw(
    before: MockLedger,
    deposited: MockLedger,
    user_id: u128,
    amount: i64,
)
    requires
        before.wallet_balance(user_id) >= 0,
        i64::MIN <= before.wallet_balance(user_id) + amount <= i64::MAX,
        deposited.wallets() == before.wallets().insert(
            user_id,
            (before.wallet_balance(user_id) + amount) as i64,
        ),
    ensures
        withdrawn(deposited.wallet_balance(user_id), amount as int) == Some(
            before.wallet_balance(user_id),
        ),
{
}

/// A withdrawal never leaves a wallet with a negative balance.
pub proof fn lemma_withdraw_keeps_balance_non_negative(balance: int, amount: int)
    ensures
        withdrawn(balance, amount) matches Some(b) ==> b >= 0,
{
}

} // verus!
