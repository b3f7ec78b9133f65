//! The decisions of the BNO08x driver, apart from the bus and the clock:
//! sequence numbering, the packets to send, which received packet ends a
//! wait, the order in which features and their dependencies are enabled,
//! and the folding of sensor reports into the latest readings.

use vstd::prelude::*;
use crate::bounded::{feature_codes, features_as_slice, features_new, features_push};
use crate::data::{MAX_PAYLOAD, Packet, PacketView, header_for, header_length, payload_len_of, resized};
use crate::parsing::{
    dependency_rank, feature_dependencies, get_feature_dependencies, get_report_length,
    report_length_of_code,
};
use crate::register::{I2CAddress, Register, ReportId, SH2Read, SH2Write};
use crate::sensors::{Sensors, is_tracked, lemma_report_tables_agree, tracked_payload_len};

verus! {

/// Direction flag of `increment_seq_num`: the write counters.
pub const WRITE: bool = true;

/// Direction flag of `increment_seq_num`: the read counters.
pub const READ: bool = false;

/// The report interval asked for when enabling a feature without one, in
/// microseconds.
pub const DEFAULT_REPORT_INTERVAL: u32 = 10000;

/// A feature being enabled: the report, the interval and sensor-specific
/// word asked for it, and how many of its dependencies have been visited.
#[derive(Clone, Copy, Debug)]
pub struct EnableFrame {
    pub feature: ReportId,
    pub interval: Option<u32>,
    pub sens_specific: Option<u32>,
    pub next_dep: usize,
}

/// How many dependencies of a frame are still to be visited.
pub open spec fn frame_rem(fr: EnableFrame) -> int {
    feature_dependencies(fr.feature).len() - fr.next_dep
}

/// The dependencies still to be visited by the frame at depth `i`, 0 when
/// there is none.
pub open spec fn rem_at(p: Seq<EnableFrame>, i: int) -> nat {
    if 0 <= i < p.len() && frame_rem(p[i]) > 0 { frame_rem(p[i]) as nat } else { 0 }
}

/// A measure of the work left in a stack of frames: the dependencies still
/// to visit, those of shallower frames weighing more.
pub open spec fn walk_potential(p: Seq<EnableFrame>) -> nat {
    rem_at(p, 0) * 16 + rem_at(p, 1) * 4 + rem_at(p, 2)
}

/// The invariant of the stack of features being enabled: no frame has
/// visited more dependencies than it has, each frame sits strictly lower in
/// the dependency order than those below it, and no frame's feature is
/// enabled yet.
pub open spec fn stack_ok(p: Seq<EnableFrame>, features: Seq<u8>) -> bool {
    &&& forall|i: int| 0 <= i < p.len() ==> (#[trigger] p[i]).next_dep <= feature_dependencies(p[i].feature).len()
    &&& forall|i: int, j: int| 0 <= i < j < p.len()
        ==> dependency_rank(#[trigger] p[j].feature) < dependency_rank(#[trigger] p[i].feature)
    &&& forall|i: int| 0 <= i < p.len() ==> !features.contains((#[trigger] p[i]).feature.code())
}

/// Whether the top frame has visited all its dependencies (or there is none).
pub open spec fn top_exhausted(p: Seq<EnableFrame>) -> bool {
    p.len() == 0 || p.last().next_dep >= feature_dependencies(p.last().feature).len()
}

/// One step of enabling: the top frame visits its next dependency, which is
/// stacked to be enabled first unless it is enabled already (or is the
/// personal activity classifier, which is never enabled).
pub open spec fn walk_step(p: Seq<EnableFrame>, features: Seq<u8>) -> Seq<EnableFrame> {
    let top = p.last();
    let dep = feature_dependencies(top.feature)[top.next_dep as int];
    let advanced = p.update(p.len() - 1, EnableFrame { next_dep: (top.next_dep + 1) as usize, ..top });
    if !features.contains(dep.code()) && dep != ReportId::PersonalActClassifier {
        advanced.push(EnableFrame { feature: dep, interval: None, sens_specific: None, next_dep: 0 })
    } else {
        advanced
    }
}

/// The stack once every dependency of its top frame has been visited.
pub open spec fn walk(p: Seq<EnableFrame>, features: Seq<u8>) -> Seq<EnableFrame>
    decreases walk_potential(p),
    when stack_ok(p, features)
{
    if top_exhausted(p) {
        p
    } else {
        proof {
            lemma_walk_step(p, features);
        }
        walk(walk_step(p, features), features)
    }
}

/// The dependency table: at most three dependencies, and the base sensors
/// (which are the only dependencies) have at most one.
proof fn lemma_dependency_counts(id: ReportId)
    ensures
        feature_dependencies(id).len() <= 3,
        dependency_rank(id) == 0 ==> feature_dependencies(id).len() == 0,
        dependency_rank(id) <= 1 ==> feature_dependencies(id).len() <= 1,
        dependency_rank(id) <= 2,
{
}

/// A stack that keeps the invariant has at most three frames, the deepest
/// of rank 0 when there are three.
proof fn lemma_stack_short(p: Seq<EnableFrame>, features: Seq<u8>)
    requires
        stack_ok(p, features),
    ensures
        p.len() <= 3,
        p.len() >= 2 ==> dependency_rank(p[1].feature) <= 1,
        p.len() == 3 ==> dependency_rank(p[2].feature) == 0,
{
    if p.len() >= 2 {
        lemma_dependency_counts(p[0].feature);
        assert(dependency_rank(p[1].feature) < dependency_rank(p[0].feature));
    }
    if p.len() >= 3 {
        assert(dependency_rank(p[2].feature) < dependency_rank(p[1].feature));
    }
    if p.len() >= 4 {
        assert(dependency_rank(p[3].feature) < dependency_rank(p[2].feature));
    }
}

/// A step of enabling keeps the stack invariant and reduces the work left.
pub proof fn lemma_walk_step(p: Seq<EnableFrame>, features: Seq<u8>)
    requires
        stack_ok(p, features),
        !top_exhausted(p),
    ensures
        stack_ok(walk_step(p, features), features),
        walk_potential(walk_step(p, features)) < walk_potential(p),
{
    lemma_stack_short(p, features);
    let k = p.len() - 1;
    let top = p[k];
    lemma_dependency_counts(top.feature);
    let dep = feature_dependencies(top.feature)[top.next_dep as int];
    crate::parsing::lemma_dependencies_descend(top.feature, top.next_dep as int);
    lemma_dependency_counts(dep);
    let advanced = p.update(k, EnableFrame { next_dep: (top.next_dep + 1) as usize, ..top });
    let q = walk_step(p, features);
    assert(forall|i: int| 0 <= i < k ==> advanced[i] == p[i]);
    assert(advanced[k].feature == top.feature);
    if !features.contains(dep.code()) && dep != ReportId::PersonalActClassifier {
        assert(q == advanced.push(EnableFrame { feature: dep, interval: None, sens_specific: None, next_dep: 0 }));
        assert(q[k + 1].feature == dep);
        assert(forall|i: int| 0 <= i <= k ==> q[i] == advanced[i]);
        assert forall|i: int, j: int| 0 <= i < j < q.len()
            implies dependency_rank(#[trigger] q[j].feature) < dependency_rank(#[trigger] q[i].feature) by {
            if j == k + 1 {
                if i < k {
                    assert(dependency_rank(p[k].feature) < dependency_rank(p[i].feature));
                }
            } else {
                assert(dependency_rank(p[j].feature) < dependency_rank(p[i].feature));
            }
        }
        assert forall|i: int| 0 <= i < q.len() implies (#[trigger] q[i]).next_dep <= feature_dependencies(q[i].feature).len() by {
            if i < k {
                assert(p[i].next_dep <= feature_dependencies(p[i].feature).len());
            }
        }
        assert forall|i: int| 0 <= i < q.len() implies !features.contains((#[trigger] q[i]).feature.code()) by {
            if i < k {
                assert(!features.contains(p[i].feature.code()));
            } else if i == k {
                assert(!features.contains(p[k].feature.code()));
            }
        }
        assert(rem_at(q, k + 1) <= 1);
    } else {
        assert(q == advanced);
        assert forall|i: int, j: int| 0 <= i < j < q.len()
            implies dependency_rank(#[trigger] q[j].feature) < dependency_rank(#[trigger] q[i].feature) by {
            assert(dependency_rank(p[j].feature) < dependency_rank(p[i].feature));
        }
        assert forall|i: int| 0 <= i < q.len() implies (#[trigger] q[i]).next_dep <= feature_dependencies(q[i].feature).len() by {
            if i < k {
                assert(p[i].next_dep <= feature_dependencies(p[i].feature).len());
            }
        }
        assert forall|i: int| 0 <= i < q.len() implies !features.contains((#[trigger] q[i]).feature.code()) by {
            assert(!features.contains(p[i].feature.code()));
        }
    }
    assert(rem_at(q, k) + 1 == rem_at(p, k));
    assert(forall|i: int| 0 <= i < k ==> rem_at(q, i) == rem_at(p, i));
}

/// Enabling only ever sends a feature once every one of its dependencies
/// has been visited: the walk ends with the top frame's dependencies used up
/// (or with nothing left to enable), and keeps the stack invariant.
pub proof fn lemma_walk_ends_exhausted(p: Seq<EnableFrame>, features: Seq<u8>)
    requires
        stack_ok(p, features),
    ensures
        stack_ok(walk(p, features), features),
        top_exhausted(walk(p, features)),
    decreases walk_potential(p),
{
    if !top_exhausted(p) {
        lemma_walk_step(p, features);
        lemma_walk_ends_exhausted(walk_step(p, features), features);
    }
}

/// Frame `a` is frame `b` with possibly more dependencies visited: same
/// feature, interval and sensor-specific word.
pub open spec fn same_request(a: EnableFrame, b: EnableFrame) -> bool {
    a.feature == b.feature && a.interval == b.interval && a.sens_specific == b.sens_specific
}

/// Dependencies are enabled with the default settings: walking a stack keeps
/// every frame it started with (same feature, interval and sensor-specific
/// word, at the same depth), and every frame it stacks on top of them, that
/// is every dependency it visits, asks for no interval and no
/// sensor-specific word, whatever was asked for the feature that needs it.
pub proof fn lemma_dependencies_use_defaults(p: Seq<EnableFrame>, features: Seq<u8>)
    requires
        stack_ok(p, features),
    ensures
        walk(p, features).len() >= p.len(),
        forall|i: int| 0 <= i < p.len() ==> same_request(#[trigger] walk(p, features)[i], p[i]),
        forall|i: int| p.len() <= i < walk(p, features).len() ==>
            (#[trigger] walk(p, features)[i]).interval is None && walk(p, features)[i].sens_specific is None,
    decreases walk_potential(p),
{
    if !top_exhausted(p) {
        lemma_walk_step(p, features);
        let q = walk_step(p, features);
        lemma_dependencies_use_defaults(q, features);
        let w = walk(p, features);
        assert(w == walk(q, features));
        assert(q.len() >= p.len());
        assert forall|i: int| 0 <= i < p.len() implies same_request(#[trigger] w[i], p[i]) by {
            assert(same_request(w[i], q[i]));
        }
        assert forall|i: int| p.len() <= i < w.len() implies
            (#[trigger] w[i]).interval is None && w[i].sens_specific is None by {
            if i < q.len() {
                assert(same_request(w[i], q[i]));
            }
        }
    }
}

/// The abstract content of the driver state.
pub struct DriverView {
    pub address: u8,
    pub seq_w: Seq<u8>,
    pub seq_r: Seq<u8>,
    pub sensors: Sensors,
    pub features: Seq<u8>,
    pub pending: Seq<EnableFrame>,
}

/// The driver state: bus address, per-channel sequence counters, latest
/// readings, and the features enabled so far.
pub struct Bno08xState {
    address: u8,
    seq_num_w: [u8; 6],
    seq_num_r: [u8; 6],
    sensors: Sensors,
    features: heapless::Vec<u8, 42>,
    pending: Vec<EnableFrame>,
}

impl View for Bno08xState {
    type V = DriverView;

    closed spec fn view(&self) -> DriverView {
        DriverView {
            address: self.address,
            seq_w: self.seq_num_w@,
            seq_r: self.seq_num_r@,
            sensors: self.sensors,
            features: feature_codes(self.features),
            pending: self.pending@,
        }
    }
}

/// The next value of a wrapping 8-bit sequence counter.
pub open spec fn next_seq(n: u8) -> u8 {
    ((n as int + 1) % 256) as u8
}

impl Bno08xState {
    /// The state invariant: six counters in each direction, and each enabled
    /// feature recorded once.
    pub open spec fn well_formed(&self) -> bool {
        &&& self@.seq_w.len() == 6
        &&& self@.seq_r.len() == 6
        &&& self@.features.no_duplicates()
        &&& stack_ok(self@.pending, self@.features)
    }

    /// A fresh driver on the default or the alternate bus address: counters
    /// at zero, readings unknown, no feature enabled.
    pub fn new(default_addr: bool) -> (r: Self)
        ensures
            r.well_formed(),
            r@.address == if default_addr { I2CAddress::Default.code() } else { I2CAddress::Alternate.code() },
            r@.seq_w == Seq::new(6, |i: int| 0u8),
            r@.seq_r == Seq::new(6, |i: int| 0u8),
            r@.sensors == Sensors::initial(),
            r@.features == Seq::<u8>::empty(),
            r@.pending == Seq::<EnableFrame>::empty(),
    {
        let r = Bno08xState {
            address: if default_addr { I2CAddress::Default.as_u8() } else { I2CAddress::Alternate.as_u8() },
            seq_num_w: [0; 6],
            seq_num_r: [0; 6],
            sensors: Sensors::new(),
            features: features_new(),
            pending: Vec::new(),
        };
        assert(r.seq_num_w@ =~= Seq::new(6, |i: int| 0u8));
        assert(r.seq_num_r@ =~= Seq::new(6, |i: int| 0u8));
        r
    }

    /// The bus address of the sensor.
    pub fn address(&self) -> (r: u8)
        ensures
            r == self@.address,
    {
        self.address
    }

    /// The write sequence counter of each channel.
    pub fn write_sequence(&self) -> (r: [u8; 6])
        ensures
            r@ == self@.seq_w,
    {
        self.seq_num_w
    }

    /// The read sequence counter of each channel.
    pub fn read_sequence(&self) -> (r: [u8; 6])
        ensures
            r@ == self@.seq_r,
    {
        self.seq_num_r
    }

    /// The latest readings.
    pub fn sensors(&self) -> (r: Sensors)
        ensures
            r == self@.sensors,
    {
        self.sensors
    }

    /// Steps the sequence counter of `channel` in the given direction and
    /// returns its new value: a write counter, or a read counter without
    /// `seq_num`, moves on by one (wrapping at 256); a read counter with
    /// `seq_num` is set to it. A channel above 5 has no counter: nothing
    /// changes and 0 is returned.
    pub fn increment_seq_num(&mut self, read_write: bool, channel: u8, seq_num: Option<u8>) -> (r: u8)
        requires
            old(self).well_formed(),
        ensures
            final(self).well_formed(),
            final(self)@.address == old(self)@.address,
            final(self)@.sensors == old(self)@.sensors,
            final(self)@.features == old(self)@.features,
            final(self)@.pending == old(self)@.pending,
            channel >= 6 ==> r == 0 && final(self)@ == old(self)@,
            channel < 6 && read_write ==> r == next_seq(old(self)@.seq_w[channel as int])
                && final(self)@.seq_w == old(self)@.seq_w.update(channel as int, r)
                && final(self)@.seq_r == old(self)@.seq_r,
            channel < 6 && !read_write ==> r == (match seq_num {
                Some(n) => n,
                None => next_seq(old(self)@.seq_r[channel as int]),
            }) && final(self)@.seq_r == old(self)@.seq_r.update(channel as int, r)
                && final(self)@.seq_w == old(self)@.seq_w,
    {
        if channel < 6 {
            let c = channel as usize;
            if read_write {
                let temp = self.seq_num_w[c] as u16;
                let next = ((temp + 1) % 256) as u8;
                self.seq_num_w[c] = next;
                next
            } else {
                match seq_num {
                    Some(num) => {
                        self.seq_num_r[c] = num;
                        num
                    },
                    None => {
                        let temp = self.seq_num_r[c] as u16;
                        let next = ((temp + 1) % 256) as u8;
                        self.seq_num_r[c] = next;
                        next
                    },
                }
            }
        } else {
            0
        }
    }

    /// The packet that sends `data` on `channel`, after stepping the write
    /// counter of the channel.
    pub fn prepare_packet(&mut self, channel: u8, data: &[u8]) -> (r: Packet)
        requires
            old(self).well_formed(),
            channel < 6,
            data@.len() <= MAX_PAYLOAD,
        ensures
            final(self).well_formed(),
            final(self)@ == (DriverView {
                seq_w: old(self)@.seq_w.update(channel as int, next_seq(old(self)@.seq_w[channel as int])),
                ..old(self)@
            }),
            r.well_formed(),
            r@ == (PacketView {
                length: 0,
                channel,
                seq_num: 0,
                header: header_for(data@.len(), channel),
                data: data@,
            }),
    {
        let seq = self.increment_seq_num(WRITE, channel, None);
        Packet::from_data_buf(data, channel, seq).unwrap()
    }

    /// The reset command (a single byte 1 on channel 1), after stepping the
    /// write counter of channel 1.
    pub fn soft_reset_packet(&mut self) -> (r: Packet)
        requires
            old(self).well_formed(),
        ensures
            final(self).well_formed(),
            final(self)@ == (DriverView {
                seq_w: old(self)@.seq_w.update(1, next_seq(old(self)@.seq_w[1])),
                ..old(self)@
            }),
            r.well_formed(),
            r@ == (PacketView {
                length: 0,
                channel: 1,
                seq_num: 0,
                header: header_for(1, 1),
                data: seq![1u8],
            }),
    {
        let cmd = [0x01u8];
        let write = Packet::from_data_buf(cmd.as_slice(), 1, self.seq_num_w[1]).unwrap();
        self.increment_seq_num(WRITE, 1, None);
        assert(cmd@ =~= seq![1u8]);
        write
    }

    /// The packet announced by a received header: the header decoded, the
    /// payload sized to the announced length (zeroed, to be read into), and
    /// the header's sequence number recorded as the read counter of channel 0.
    pub fn take_header(&mut self, header: [u8; 4]) -> (r: Packet)
        requires
            old(self).well_formed(),
        ensures
            final(self).well_formed(),
            final(self)@ == (DriverView { seq_r: old(self)@.seq_r.update(0, header@[3]), ..old(self)@ }),
            r.well_formed(),
            r@ == (PacketView {
                length: header_length(header@),
                channel: header@[2],
                seq_num: header@[3],
                header: header@,
                data: Seq::new(payload_len_of(header_length(header@)) as nat, |i: int| 0u8),
            }),
    {
        let mut out = Packet::new();
        let h = out.as_mut_header();
        h[0] = header[0];
        h[1] = header[1];
        h[2] = header[2];
        h[3] = header[3];
        assert(h@ =~= header@);
        out.process_header(true);
        assert(resized(Seq::<u8>::empty(), payload_len_of(header_length(header@)) as nat)
            =~= Seq::new(payload_len_of(header_length(header@)) as nat, |i: int| 0u8));
        self.seq_num_r[0] = out.seq_num();
        out
    }
}

/// What a wait for a packet asks next.
#[derive(Clone, Copy, PartialEq, Eq, Debug, Structural)]
pub enum WaitStep {
    /// Read another packet and offer it.
    ReadNext,
    /// The packet offered last is the answer.
    Done,
    /// The attempts are used up without an answer.
    Failed,
}

/// A wait for a packet on a channel (and, when given, with a control report
/// id), with at most `max_attempts` reads, or without limit when it is 0.
pub struct PacketWait {
    channel: u8,
    report_id: Option<SH2Read>,
    max_attempts: u8,
    retries: u8,
}

/// The abstract content of a wait.
pub struct PacketWaitView {
    pub channel: u8,
    pub report_id: Option<SH2Read>,
    pub max_attempts: u8,
    pub retries: u8,
}

impl View for PacketWait {
    type V = PacketWaitView;

    closed spec fn view(&self) -> PacketWaitView {
        PacketWaitView {
            channel: self.channel,
            report_id: self.report_id,
            max_attempts: self.max_attempts,
            retries: self.retries,
        }
    }
}

/// Whether a packet on `ch` with report id `rid` leaves a wait for `channel`
/// (and `report_id`) unanswered: the channel differs and, when a report id is
/// waited for, the report id differs too.
pub open spec fn still_waiting(channel: u8, report_id: Option<SH2Read>, ch: u8, rid: u8) -> bool {
    ch != channel && match report_id {
        Some(id) => rid != id.code(),
        None => true,
    }
}

impl PacketWait {
    /// The wait's invariant: the reads made never exceed a limit.
    pub open spec fn well_formed(&self) -> bool {
        self@.max_attempts > 0 ==> self@.retries <= self@.max_attempts
    }

    /// A wait that has read nothing yet; `max` of `None` or 0 sets no limit.
    pub fn new(channel: u8, report_id: Option<SH2Read>, max: Option<u8>) -> (r: Self)
        ensures
            r.well_formed(),
            r@ == (PacketWaitView {
                channel,
                report_id,
                max_attempts: match max {
                    Some(m) => m,
                    None => 0,
                },
                retries: 0,
            }),
    {
        PacketWait { channel, report_id, max_attempts: max.unwrap_or(0), retries: 0 }
    }

    /// Offers the packet read last (initially an empty packet on no channel):
    /// the wait is done when it answers the wait; otherwise another read is
    /// asked for, counted against the limit, and when the limit is used up
    /// the wait has failed.
    pub fn step(&mut self, current: &Packet) -> (r: WaitStep)
        requires
            old(self).well_formed(),
        ensures
            final(self).well_formed(),
            ({
                let w = old(self)@;
                let pending = still_waiting(w.channel, w.report_id, current@.channel, 0);
                &&& r == WaitStep::Done <==> !pending
                &&& r == WaitStep::Failed <==> pending && w.max_attempts > 0 && w.retries == w.max_attempts
                &&& r == WaitStep::ReadNext ==> final(self)@ == (PacketWaitView {
                    retries: if w.max_attempts > 0 { (w.retries + 1) as u8 } else { w.retries },
                    ..w
                })
                &&& r != WaitStep::ReadNext ==> final(self)@ == w
            }),
    {
        let pending = match self.report_id {
            Some(report_id) => current.channel() != self.channel
                && current.report_id() != Register::Read(report_id).addr(),
            None => current.channel() != self.channel,
        };
        if self.max_attempts > 0 {
            if pending && self.retries < self.max_attempts {
                self.retries += 1;
                WaitStep::ReadNext
            } else if self.retries == self.max_attempts && pending {
                WaitStep::Failed
            } else {
                WaitStep::Done
            }
        } else {
            if pending {
                WaitStep::ReadNext
            } else {
                WaitStep::Done
            }
        }
    }
}


/// How many report positions a sensor packet of `len` payload bytes is given:
/// the length less 15, or 2 for a shorter payload.
pub open spec fn scan_attempts(len: nat) -> nat {
    if len >= 15 { (len - 15) as nat } else { 2 }
}

/// Whether scanning the reports of payload `d` from `index`, with `attempts`
/// of `max` positions used, stays within the payload: at each position a
/// known report must lie wholly in the payload; an unknown code uses up a
/// position without moving on.
pub open spec fn scan_fits(d: Seq<u8>, index: nat, attempts: nat, max: nat) -> bool
    decreases max - attempts,
{
    if index < d.len() && attempts < max {
        match report_length_of_code(d[index as int]) {
            Some((id, len)) => index + len <= d.len() && scan_fits(d, (index + len) as nat, attempts + 1, max),
            None => scan_fits(d, index, attempts + 1, max),
        }
    } else {
        true
    }
}

/// The readings after scanning the reports of payload `d` from `index`,
/// with `attempts` of `max` positions used: each known report is folded in
/// (payload after its four status bytes) and skipped over.
pub open spec fn scan_sensors(s: Sensors, d: Seq<u8>, index: nat, attempts: nat, max: nat) -> Sensors
    decreases max - attempts,
{
    if index < d.len() && attempts < max {
        match report_length_of_code(d[index as int]) {
            Some((id, len)) => scan_sensors(
                s.updated(id, d.subrange((index + 4) as int, (index + len) as int), d.subrange(index as int, (index + 4) as int)),
                d, (index + len) as nat, attempts + 1, max),
            None => scan_sensors(s, d, index, attempts + 1, max),
        }
    } else {
        s
    }
}

/// Whether the reports of a sensor packet's payload lie within it: the five
/// timestamp bytes, then each report found (see `scan_fits`).
pub open spec fn sensor_report_in_bounds(d: Seq<u8>) -> bool {
    d.len() >= 5 && scan_fits(d, 5, 0, scan_attempts(d.len()))
}

/// The readings after folding in every report of a sensor packet's payload.
pub open spec fn sensors_after_report(s: Sensors, d: Seq<u8>) -> Sensors {
    scan_sensors(s, d, 5, 0, scan_attempts(d.len()))
}

/// Every known report is at least five bytes long (four status bytes and a
/// field), and a tracked report leaves room for its fields.
proof fn lemma_known_report(b: u8)
    ensures
        report_length_of_code(b) matches Some((id, len)) ==> 5 <= len <= 16
            && (is_tracked(id) ==> tracked_payload_len(id) + 4 <= len),
{
    if let Some((id, len)) = report_length_of_code(b) {
        if is_tracked(id) {
            lemma_report_tables_agree(id);
        }
    }
}

/// Whether the reports of a sensor packet's payload `data` lie within it
/// (see `sensor_report_in_bounds`).
pub fn sensor_report_fits(data: &[u8]) -> (r: bool)
    requires
        data@.len() <= MAX_PAYLOAD,
    ensures
        r == sensor_report_in_bounds(data@),
{
    let n = data.len();
    if n < 5 {
        return false;
    }
    let max: usize = n.checked_sub(15).unwrap_or(2);
    let mut index: usize = 5;
    let mut attempts: usize = 0;
    while index < n && attempts < max
        invariant
            n == data@.len(),
            n <= MAX_PAYLOAD,
            max == scan_attempts(n as nat),
            index <= n,
            attempts <= max,
            sensor_report_in_bounds(data@) == scan_fits(data@, index as nat, attempts as nat, max as nat),
        decreases max - attempts,
    {
        proof {
            lemma_known_report(data@[index as int]);
        }
        if let Some((_id, length)) = get_report_length(data[index]) {
            let l = length as usize;
            if index + l > n {
                return false;
            }
            index += l;
        }
        attempts += 1;
    }
    true
}

impl Bno08xState {
    /// Folds every report of a sensor packet's payload into the readings.
    fn parse_sensor_report(&mut self, out: Packet)
        requires
            old(self).well_formed(),
            out.well_formed(),
            sensor_report_in_bounds(out@.data),
        ensures
            final(self).well_formed(),
            final(self)@ == (DriverView {
                sensors: sensors_after_report(old(self)@.sensors, out@.data),
                ..old(self)@
            }),
    {
        let data = out.data();
        let n = data.len();
        let _timestamping: &[u8] = &data[0..5];
        let max: usize = n.checked_sub(15).unwrap_or(2);
        let mut index: usize = 5;
        let mut attempts: usize = 0;
        let ghost target = sensors_after_report(old(self)@.sensors, data@);
        while index < n && attempts < max
            invariant
                n == data@.len(),
                n <= MAX_PAYLOAD,
                max == scan_attempts(n as nat),
                index <= n,
                attempts <= max,
                scan_fits(data@, index as nat, attempts as nat, max as nat),
                scan_sensors(self.sensors, data@, index as nat, attempts as nat, max as nat) == target,
                self.well_formed(),
                self@ == (DriverView { sensors: self@.sensors, ..old(self)@ }),
            decreases max - attempts,
        {
            proof {
                lemma_known_report(data@[index as int]);
            }
            if let Some((id, length)) = get_report_length(data[index]) {
                let l = length as usize;
                self.sensors.update_data(id, &data[(index + 4)..(index + l)], &data[index..(index + 4)]);
                index += l;
            }
            attempts += 1;
        }
    }

    /// Takes in the packet that answered a wait for sensor data: when it
    /// announces more than five payload bytes, its reports are folded into
    /// the readings and the result is true; otherwise nothing changes and the
    /// result is false.
    pub fn apply_sensor_packet(&mut self, out: Packet) -> (r: bool)
        requires
            old(self).well_formed(),
            out.well_formed(),
            payload_len_of(out@.length) > 5 ==> sensor_report_in_bounds(out@.data),
        ensures
            final(self).well_formed(),
            r == (payload_len_of(out@.length) > 5),
            r ==> final(self)@ == (DriverView {
                sensors: sensors_after_report(old(self)@.sensors, out@.data),
                ..old(self)@
            }),
            !r ==> final(self)@ == old(self)@,
    {
        if out.data_length() > 5 {
            self.parse_sensor_report(out);
            true
        } else {
            false
        }
    }
}


/// The four little-endian bytes of `v`.
pub open spec fn le_bytes32(v: u32) -> Seq<u8> {
    seq![(v % 256) as u8, ((v / 256) % 256) as u8, ((v / 65536) % 256) as u8, (v / 16777216) as u8]
}

/// The set-feature command for `feature`: the command code, the report id,
/// three zero bytes, the report interval (the default when none is given),
/// four zero bytes, and the sensor-specific word (0 when none is given), the
/// words little-endian.
pub open spec fn feature_command(feature: ReportId, interval: Option<u32>, sens_specific: Option<u32>) -> Seq<u8> {
    let iv = match interval {
        Some(v) => v,
        None => DEFAULT_REPORT_INTERVAL,
    };
    let ss = match sens_specific {
        Some(v) => v,
        None => 0u32,
    };
    seq![SH2Write::SetFeatureCommand.code(), feature.code(), 0u8, 0u8, 0u8]
        + le_bytes32(iv) + seq![0u8, 0u8, 0u8, 0u8] + le_bytes32(ss)
}

fn u32_to_le_bytes(v: u32) -> (r: [u8; 4])
    ensures
        r@ == le_bytes32(v),
{
    let r = [(v % 256) as u8, ((v / 256) % 256) as u8, ((v / 65536) % 256) as u8, (v / 16777216) as u8];
    assert(r@ =~= le_bytes32(v));
    r
}

/// The set-feature command that enables `feature_id` (see
/// `feature_command`).
pub fn set_feature_command(feature_id: ReportId, interval: Option<u32>, sens_specific: Option<u32>) -> (r: [u8; 17])
    ensures
        r@ == feature_command(feature_id, interval, sens_specific),
{
    let mut data_buffer = [0u8; 17];
    data_buffer[0] = Register::Write(SH2Write::SetFeatureCommand).addr();
    data_buffer[1] = feature_id.as_u8();
    let iv = u32_to_le_bytes(interval.unwrap_or(DEFAULT_REPORT_INTERVAL));
    let ss = u32_to_le_bytes(sens_specific.unwrap_or(0));
    data_buffer[5] = iv[0];
    data_buffer[6] = iv[1];
    data_buffer[7] = iv[2];
    data_buffer[8] = iv[3];
    data_buffer[13] = ss[0];
    data_buffer[14] = ss[1];
    data_buffer[15] = ss[2];
    data_buffer[16] = ss[3];
    assert(data_buffer@ =~= feature_command(feature_id, interval, sens_specific));
    data_buffer
}

/// The product id request: the request code and a zero byte.
pub fn product_id_request() -> (r: [u8; 2])
    ensures
        r@ == seq![SH2Write::ProductIDRequest.code(), 0u8],
{
    let r = [Register::Write(SH2Write::ProductIDRequest).addr(), 0x00];
    assert(r@ =~= seq![SH2Write::ProductIDRequest.code(), 0u8]);
    r
}

/// Whether a product id response reports a software version: its major and
/// minor version bytes (the third and fourth) are not both zero.
pub fn product_id_reported(data: &[u8]) -> (r: bool)
    ensures
        r == (data@.len() >= 4 && (data@[2] != 0 || data@[3] != 0)),
{
    data.len() >= 4 && (data[2] != 0 || data[3] != 0)
}


/// What enabling a feature asks next.
#[derive(Clone, Copy, Debug)]
pub enum EnableStep {
    /// Send this set-feature command for `feature` on the control channel,
    /// wait for the feature response, and report whether it came.
    Send { feature: ReportId, command: [u8; 17] },
    /// Nothing more to send.
    Finished,
}

impl Bno08xState {
    /// Whether the feature `id` has been enabled.
    pub fn is_enabled(&self, id: ReportId) -> (r: bool)
        ensures
            r == self@.features.contains(id.code()),
    {
        let code = id.as_u8();
        let codes = features_as_slice(&self.features);
        let n = codes.len();
        let mut i: usize = 0;
        while i < n
            invariant
                n == codes@.len(),
                codes@ == self@.features,
                code == id.code(),
                i <= n,
                forall|j: int| 0 <= j < i ==> codes@[j] != code,
            decreases n - i,
        {
            if codes[i] == code {
                assert(self@.features[i as int] == code);
                return true;
            }
            i += 1;
        }
        false
    }

    /// Starts enabling `feature_id` with the given report interval and
    /// sensor-specific word: nothing is to be done when it is enabled
    /// already, or when it is the personal activity classifier (not
    /// supported); otherwise it is the only feature being enabled.
    pub fn begin_enable(&mut self, feature_id: ReportId, interval: Option<u32>, sens_specific: Option<u32>)
        requires
            old(self).well_formed(),
        ensures
            final(self).well_formed(),
            final(self)@ == (DriverView {
                pending: if !old(self)@.features.contains(feature_id.code())
                    && feature_id != ReportId::PersonalActClassifier {
                    seq![EnableFrame { feature: feature_id, interval, sens_specific, next_dep: 0 }]
                } else {
                    Seq::empty()
                },
                ..old(self)@
            }),
    {
        let mut pending: Vec<EnableFrame> = Vec::new();
        if !self.is_enabled(feature_id) && feature_id != ReportId::PersonalActClassifier {
            pending.push(EnableFrame { feature: feature_id, interval, sens_specific, next_dep: 0 });
        }
        self.pending = pending;
        assert(self@.pending.len() <= 1);
    }

    /// Visits dependencies until the feature on top of the stack has none
    /// left (see `walk`), and asks to send that feature's command; with no
    /// feature left to enable, there is nothing to send.
    pub fn next_enable_action(&mut self) -> (r: EnableStep)
        requires
            old(self).well_formed(),
        ensures
            final(self).well_formed(),
            final(self)@ == (DriverView { pending: walk(old(self)@.pending, old(self)@.features), ..old(self)@ }),
            ({
                let w = walk(old(self)@.pending, old(self)@.features);
                &&& w.len() == 0 <==> r is Finished
                &&& r matches EnableStep::Send { feature, command } ==> feature == w.last().feature
                    && command@ == feature_command(w.last().feature, w.last().interval, w.last().sens_specific)
                &&& w.len() > old(self)@.pending.len() ==> (r matches EnableStep::Send { feature, command }
                    ==> command@ == feature_command(feature, None, None))
            }),
    {
        proof {
            lemma_dependencies_use_defaults(old(self)@.pending, old(self)@.features);
        }
        let ghost goal = walk(old(self)@.pending, old(self)@.features);
        loop
            invariant
                self.well_formed(),
                self@ == (DriverView { pending: self@.pending, ..old(self)@ }),
                walk(self@.pending, self@.features) == goal,
                goal == walk(old(self)@.pending, old(self)@.features),
                forall|i: int| old(self)@.pending.len() <= i < goal.len() ==>
                    (#[trigger] goal[i]).interval is None && goal[i].sens_specific is None,
            decreases walk_potential(self@.pending),
        {
            let len = self.pending.len();
            if len == 0 {
                assert(walk(self@.pending, self@.features) == self@.pending);
                return EnableStep::Finished;
            }
            let top = self.pending[len - 1];
            let deps = get_feature_dependencies(top.feature);
            if top.next_dep < deps.len() {
                let dep = deps[top.next_dep];
                let ghost before = self@.pending;
                proof {
                    lemma_walk_step(before, self@.features);
                }
                self.pending.set(len - 1, EnableFrame { next_dep: top.next_dep + 1, ..top });
                if !self.is_enabled(dep) && dep != ReportId::PersonalActClassifier {
                    self.pending.push(EnableFrame { feature: dep, interval: None, sens_specific: None, next_dep: 0 });
                }
                assert(self@.pending =~= walk_step(before, self@.features));
            } else {
                assert(top == self@.pending.last());
                assert(top_exhausted(self@.pending));
                assert(walk(self@.pending, self@.features) == self@.pending);
                let command = set_feature_command(top.feature, top.interval, top.sens_specific);
                return EnableStep::Send { feature: top.feature, command };
            }
        }
    }

    /// Takes in whether the feature response came for the command just sent:
    /// the feature on top of the stack is done with, and recorded as enabled
    /// when the response came (and there is room for it). Nothing changes
    /// while the top feature still has dependencies to visit.
    pub fn finish_enable(&mut self, ok: bool)
        requires
            old(self).well_formed(),
        ensures
            final(self).well_formed(),
            top_exhausted(old(self)@.pending) && old(self)@.pending.len() > 0 ==> final(self)@ == (DriverView {
                pending: old(self)@.pending.drop_last(),
                features: if ok && old(self)@.features.len() < 42 {
                    old(self)@.features.push(old(self)@.pending.last().feature.code())
                } else {
                    old(self)@.features
                },
                ..old(self)@
            }),
            !(top_exhausted(old(self)@.pending) && old(self)@.pending.len() > 0) ==> final(self)@ == old(self)@,
    {
        let len = self.pending.len();
        if len == 0 {
            return;
        }
        let top = self.pending[len - 1];
        let deps = get_feature_dependencies(top.feature);
        if top.next_dep >= deps.len() {
            let ghost p = self@.pending;
            let ghost f = self@.features;
            self.pending.pop();
            if ok {
                let _ = features_push(&mut self.features, top.feature.as_u8());
            }
            proof {
                assert(self@.pending =~= p.drop_last());
                assert forall|i: int| 0 <= i < self@.pending.len()
                    implies !self@.features.contains((#[trigger] self@.pending[i]).feature.code()) by {
                    assert(self@.pending[i] == p[i]);
                    assert(dependency_rank(p[len - 1].feature) < dependency_rank(p[i].feature));
                    crate::register::lemma_report_code_roundtrip(p[i].feature, p[len - 1].feature.code());
                    crate::register::lemma_report_code_roundtrip(p[len - 1].feature, p[i].feature.code());
                    assert(!f.contains(p[i].feature.code()));
                    if self@.features.contains(p[i].feature.code()) {
                        let idx = choose|idx: int| 0 <= idx < self@.features.len() && self@.features[idx] == p[i].feature.code();
                        if idx < f.len() {
                            assert(f[idx] == self@.features[idx]);
                        }
                    }
                }
                assert forall|i: int| 0 <= i < self@.pending.len()
                    implies (#[trigger] self@.pending[i]).next_dep <= feature_dependencies(self@.pending[i].feature).len() by {
                    assert(self@.pending[i] == p[i]);
                }
                assert forall|i: int, j: int| 0 <= i < j < self@.pending.len()
                    implies dependency_rank(#[trigger] self@.pending[j].feature) < dependency_rank(#[trigger] self@.pending[i].feature) by {
                    assert(self@.pending[i] == p[i]);
                    assert(self@.pending[j] == p[j]);
                }
                if ok && f.len() < 42 {
                    assert(!f.contains(p[len - 1].feature.code()));
                    assert forall|a: int, b: int| 0 <= a < b < self@.features.len()
                        implies self@.features[a] != self@.features[b] by {
                        if b < f.len() {
                            assert(f[a] != f[b]);
                        } else {
                            assert(self@.features[a] == f[a]);
                        }
                    }
                }
            }
        }
    }
}

} // verus!

verus! {

/// The calibrated three-axis reports: accelerometer, gyroscope, magnetic
/// field, linear acceleration and gravity.
pub open spec fn is_three_axis_report(id: ReportId) -> bool {
    ||| id == ReportId::AccelerometerCalibrated
    ||| id == ReportId::GyroscopeCalibrated
    ||| id == ReportId::MagFieldCalibrated
    ||| id == ReportId::AccelerationLinear
    ||| id == ReportId::Gravity
}

/// A sensor packet carrying the five timestamp bytes and then two complete
/// calibrated three-axis reports back to back (ten bytes each: four status
/// bytes and three 16-bit fields) lies within its payload, and reading it
/// folds in both reports, the first and then the second.
pub proof fn lemma_two_reports_fold(s: Sensors, d: Seq<u8>, a: ReportId, b: ReportId)
    requires
        d.len() == 25,
        is_three_axis_report(a),
        is_three_axis_report(b),
        d[5] == a.code(),
        d[15] == b.code(),
    ensures
        sensor_report_in_bounds(d),
        sensors_after_report(s, d) == s.updated(a, d.subrange(9, 15), d.subrange(5, 9))
            .updated(b, d.subrange(19, 25), d.subrange(15, 19)),
{
    crate::register::lemma_report_code_roundtrip(a, 0);
    crate::register::lemma_report_code_roundtrip(b, 0);
    assert(report_length_of_code(d[5]) == Some((a, 10u8)));
    assert(report_length_of_code(d[15]) == Some((b, 10u8)));
    assert(scan_attempts(25) == 10);
    let s1 = s.updated(a, d.subrange(9, 15), d.subrange(5, 9));
    let s2 = s1.updated(b, d.subrange(19, 25), d.subrange(15, 19));
    assert(scan_fits(d, 25, 2, 10));
    assert(scan_fits(d, 15, 1, 10));
    assert(scan_fits(d, 5, 0, 10));
    assert(scan_sensors(s2, d, 25, 2, 10) == s2);
    assert(scan_sensors(s1, d, 15, 1, 10) == s2);
    assert(scan_sensors(s, d, 5, 0, 10) == s2);
}

} // verus!
