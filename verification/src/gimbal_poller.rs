//! The gimbal value scheduler: tracks read requests, queued writes and the
//! in-flight read, and batches outgoing packets so the last packet of each
//! batch is a read the gimbal will answer.

use vstd::prelude::*;

use crate::gimbal_framing::{packet_bytes, packet_fits, GimbalFraming, GimbalPacket, PacketReceiver};
use crate::gimbal_protocol::{cmd, pack, target, unpack, NUM_AXES, NUM_VALUES};
use crate::message::{
    GimbalRequestScope, GimbalValueAddress, GimbalValueData, GimbalValueOp, GimbalValueRequest,
    Message, TimestampedMessage,
};

verus! {

/// At most this many packets leave in one batch.
pub const MAX_PACKETS_PER_READ_BATCH: usize = 2;

/// Raw packets longer than this are dropped rather than sent.
pub const MAX_PACKET_LENGTH: usize = 16;

/// A continuous read request expires this long after it was last renewed,
/// milliseconds.
pub const MAX_CONTINUOUS_POLL_MILLIS: u64 = 500;

/// The controller's side of the gimbal connection: everything queued to go
/// out on the next batches.
#[derive(Debug, PartialEq, Clone)]
pub struct GimbalPort {
    /// Raw packets to pass through.
    pub packets: Vec<GimbalPacket>,
    /// Value writes to turn into packets.
    pub writes: Vec<GimbalValueData>,
    /// Read requests to fold into the tracker.
    pub requests: Vec<GimbalValueRequest>,
}

impl GimbalPort {
    /// An empty queue set.
    pub fn new() -> (r: GimbalPort)
        ensures
            r.packets@.len() == 0,
            r.writes@.len() == 0,
            r.requests@.len() == 0,
    {
        GimbalPort { packets: Vec::new(), writes: Vec::new(), requests: Vec::new() }
    }

    /// Queue one raw packet.
    pub fn send_packet(&mut self, packet: GimbalPacket)
        ensures
            final(self).packets@ == old(self).packets@.push(packet),
            final(self).writes == old(self).writes,
            final(self).requests == old(self).requests,
    {
        self.packets.push(packet);
    }

    /// Queue motor power commands for every axis.
    pub fn set_motor_enable(&mut self, enable: bool)
        ensures
            final(self).packets@.len() == old(self).packets@.len() + 3,
            forall|k: int|
                0 <= k < 3 ==> {
                    let p = (#[trigger] final(self).packets@[old(self).packets@.len() + k])@;
                    &&& p.framing == GimbalFraming::Normal
                    &&& p.command == cmd::MOTOR_POWER
                    &&& p.target == k
                    &&& p.data == seq![if enable { 1u8 } else { 0u8 }]
                },
            forall|k: int|
                0 <= k < old(self).packets@.len() ==> #[trigger] final(self).packets@[k] == old(self).packets@[k],
            final(self).writes == old(self).writes,
            final(self).requests == old(self).requests,
    {
        let value: u8 = if enable {
            1
        } else {
            0
        };
        let p0 = pack::motor_power(0, value);
        let p1 = pack::motor_power(1, value);
        let p2 = pack::motor_power(2, value);
        self.packets.push(p0);
        self.packets.push(p1);
        self.packets.push(p2);
    }

    /// Queue one value write.
    pub fn write_value(&mut self, val: GimbalValueData)
        ensures
            final(self).writes@ == old(self).writes@.push(val),
            final(self).packets == old(self).packets,
            final(self).requests == old(self).requests,
    {
        self.writes.push(val);
    }

    /// Queue the two-axis control-rate write.
    pub fn write_control_rates(&mut self, rates: [i16; 2])
        ensures
            final(self).writes@ == old(self).writes@.push(
                GimbalValueData {
                    addr: GimbalValueAddress { target: target::YAW, index: crate::gimbal_protocol::values::CONTROL_RATE },
                    value: rates[0],
                },
            ).push(
                GimbalValueData {
                    addr: GimbalValueAddress { target: target::PITCH, index: crate::gimbal_protocol::values::CONTROL_RATE },
                    value: rates[1],
                },
            ),
            final(self).packets == old(self).packets,
            final(self).requests == old(self).requests,
    {
        self.write_value(
            GimbalValueData {
                addr: GimbalValueAddress {
                    target: target::YAW,
                    index: crate::gimbal_protocol::values::CONTROL_RATE,
                },
                value: rates[0],
            },
        );
        self.write_value(
            GimbalValueData {
                addr: GimbalValueAddress {
                    target: target::PITCH,
                    index: crate::gimbal_protocol::values::CONTROL_RATE,
                },
                value: rates[1],
            },
        );
    }

    /// Queue a batch of read requests.
    pub fn request_values(&mut self, reqs: Vec<GimbalValueRequest>)
        ensures
            final(self).requests@ == old(self).requests@ + reqs@,
            final(self).packets == old(self).packets,
            final(self).writes == old(self).writes,
    {
        let n = reqs.len();
        let mut i: usize = 0;
        while i < n
            invariant
                n == reqs@.len(),
                0 <= i <= n,
                self.requests@ == old(self).requests@ + reqs@.subrange(0, i as int),
                self.packets == old(self).packets,
                self.writes == old(self).writes,
            decreases n - i,
        {
            let r = reqs[i];
            self.requests.push(r);
            proof {
                assert(old(self).requests@ + reqs@.subrange(0, i as int) + seq![reqs@[i as int]]
                    =~= old(self).requests@ + reqs@.subrange(0, i + 1));
            }
            i = i + 1;
        }
        proof {
            assert(reqs@.subrange(0, n as int) =~= reqs@);
        }
    }

    /// Queue a one-shot read of one slot.
    pub fn request_once(&mut self, index: u8, target_id: u8)
        ensures
            final(self).requests@ == old(self).requests@.push(
                GimbalValueRequest {
                    addr: GimbalValueAddress { target: target_id, index },
                    scope: GimbalRequestScope::Once,
                },
            ),
            final(self).packets == old(self).packets,
            final(self).writes == old(self).writes,
    {
        self.requests.push(
            GimbalValueRequest {
                addr: GimbalValueAddress { target: target_id, index },
                scope: GimbalRequestScope::Once,
            },
        );
    }

    /// Queue a continuous read of one slot.
    pub fn request_continuous(&mut self, index: u8, target_id: u8)
        ensures
            final(self).requests@ == old(self).requests@.push(
                GimbalValueRequest {
                    addr: GimbalValueAddress { target: target_id, index },
                    scope: GimbalRequestScope::Continuous,
                },
            ),
            final(self).packets == old(self).packets,
            final(self).writes == old(self).writes,
    {
        self.requests.push(
            GimbalValueRequest {
                addr: GimbalValueAddress { target: target_id, index },
                scope: GimbalRequestScope::Continuous,
            },
        );
    }
}

/// One slot of the tracker: the freshest value, the live read request, and
/// a pending write.  Times are milliseconds.
#[derive(Debug, PartialEq, Clone, Copy)]
pub struct ValueTrackerItem {
    pub value: Option<(u64, i16)>,
    pub request: Option<(u64, GimbalRequestScope)>,
    pub write: Option<i16>,
}

/// The 2-D table of value slots, with round-robin cursors for writes and
/// reads.
#[derive(Debug, PartialEq, Clone)]
pub struct ValueTracker {
    pub request_index: usize,
    pub write_index: usize,
    pub items: Vec<ValueTrackerItem>,
}

/// Where an address lives in the tracker, if it is in range.
pub open spec fn addr_index_spec(addr: GimbalValueAddress) -> Option<int> {
    if addr.index < NUM_VALUES && addr.target < NUM_AXES {
        Some(addr.index * NUM_AXES + addr.target)
    } else {
        None
    }
}

/// The address of a tracker slot.
pub open spec fn index_addr_spec(i: int) -> GimbalValueAddress {
    GimbalValueAddress { index: (i / NUM_AXES as int) as u8, target: (i % NUM_AXES as int) as u8 }
}

impl ValueTracker {
    /// The full table, every slot empty.
    pub open spec fn well_formed(&self) -> bool {
        &&& self.items@.len() == NUM_VALUES * NUM_AXES
        &&& self.request_index < self.items@.len()
        &&& self.write_index < self.items@.len()
    }

    /// A tracker with every slot empty.
    pub fn new() -> (r: ValueTracker)
        ensures
            r.well_formed(),
            forall|i: int|
                0 <= i < r.items@.len() ==> #[trigger] r.items@[i] == (ValueTrackerItem {
                    value: None,
                    request: None,
                    write: None,
                }),
    {
        let mut items: Vec<ValueTrackerItem> = Vec::new();
        let total = NUM_VALUES * NUM_AXES;
        for i in 0..total
            invariant
                items@.len() == i,
                forall|j: int|
                    0 <= j < i ==> #[trigger] items@[j] == (ValueTrackerItem {
                        value: None,
                        request: None,
                        write: None,
                    }),
            decreases total - i,
        {
            items.push(ValueTrackerItem { value: None, request: None, write: None });
        }
        ValueTracker { request_index: 0, write_index: 0, items }
    }

    /// Where an address lives in the table, if in range.
    pub fn addr_index(addr: &GimbalValueAddress) -> (r: Option<usize>)
        ensures
            match r {
                Some(i) => addr_index_spec(*addr) == Some(i as int) && i < NUM_VALUES * NUM_AXES,
                None => addr_index_spec(*addr) is None,
            },
    {
        let index = addr.index as usize;
        let target_id = addr.target as usize;
        if index < NUM_VALUES && target_id < NUM_AXES {
            Some(index * NUM_AXES + target_id)
        } else {
            None
        }
    }

    /// The address of a tracker slot.
    pub fn index_addr(tracker_index: usize) -> (r: GimbalValueAddress)
        requires
            tracker_index < NUM_VALUES * NUM_AXES,
        ensures
            r == index_addr_spec(tracker_index as int),
    {
        GimbalValueAddress {
            index: (tracker_index / NUM_AXES) as u8,
            target: (tracker_index % NUM_AXES) as u8,
        }
    }

    /// Record a value read back from the gimbal.
    pub fn store_value(&mut self, timestamp: u64, data: GimbalValueData)
        requires
            old(self).well_formed(),
        ensures
            final(self).well_formed(),
            match addr_index_spec(data.addr) {
                Some(i) => final(self).items@ == old(self).items@.update(
                    i,
                    ValueTrackerItem {
                        value: Some((timestamp, data.value)),
                        ..old(self).items@[i]
                    },
                ),
                None => final(self).items == old(self).items,
            },
            final(self).request_index == old(self).request_index,
            final(self).write_index == old(self).write_index,
    {
        if let Some(index) = ValueTracker::addr_index(&data.addr) {
            let mut item = self.items[index];
            item.value = Some((timestamp, data.value));
            self.items.set(index, item);
        }
    }

    /// Record a read request.  A continuous request never downgrades to a
    /// one-shot, but any request renews the timestamp.
    pub fn store_request(&mut self, timestamp: u64, req: GimbalValueRequest)
        requires
            old(self).well_formed(),
        ensures
            final(self).well_formed(),
            match addr_index_spec(req.addr) {
                Some(i) => final(self).items@ == old(self).items@.update(
                    i,
                    ValueTrackerItem {
                        request: Some(
                            (
                                timestamp,
                                match old(self).items@[i].request {
                                    Some((_, GimbalRequestScope::Continuous))
                                        => GimbalRequestScope::Continuous,
                                    _ => req.scope,
                                },
                            ),
                        ),
                        ..old(self).items@[i]
                    },
                ),
                None => final(self).items == old(self).items,
            },
            final(self).request_index == old(self).request_index,
            final(self).write_index == old(self).write_index,
    {
        if let Some(index) = ValueTracker::addr_index(&req.addr) {
            let mut item = self.items[index];
            let scope = match item.request {
                Some((_, GimbalRequestScope::Continuous)) => GimbalRequestScope::Continuous,
                _ => req.scope,
            };
            item.request = Some((timestamp, scope));
            self.items.set(index, item);
        }
    }

    /// Record a pending write, overwriting any prior one.
    pub fn store_write(&mut self, data: GimbalValueData)
        requires
            old(self).well_formed(),
        ensures
            final(self).well_formed(),
            match addr_index_spec(data.addr) {
                Some(i) => final(self).items@ == old(self).items@.update(
                    i,
                    ValueTrackerItem { write: Some(data.value), ..old(self).items@[i] },
                ),
                None => final(self).items == old(self).items,
            },
            final(self).request_index == old(self).request_index,
            final(self).write_index == old(self).write_index,
    {
        if let Some(index) = ValueTracker::addr_index(&data.addr) {
            let mut item = self.items[index];
            item.write = Some(data.value);
            self.items.set(index, item);
        }
    }

    /// Take the next pending write in round-robin order from the write
    /// cursor, if any: the first slot with a pending write is cleared and
    /// returned, and the cursor moves past it.  None exactly when no slot
    /// has a pending write, leaving everything unchanged.
    pub fn next_write(&mut self) -> (r: Option<GimbalValueData>)
        requires
            old(self).well_formed(),
        ensures
            final(self).well_formed(),
            final(self).request_index == old(self).request_index,
            match r {
                Some(d) => exists|k: int|
                    #![trigger cyclic_index(old(self).write_index as int, k, old(self).items@.len() as int)]
                    {
                        let len = old(self).items@.len() as int;
                        let i = cyclic_index(old(self).write_index as int, k, len);
                        &&& 0 <= k < len
                        &&& old(self).items@[i].write == Some(d.value)
                        &&& d.addr == index_addr_spec(i)
                        &&& final(self).items@ == old(self).items@.update(
                            i,
                            ValueTrackerItem { write: None, ..old(self).items@[i] },
                        )
                        &&& final(self).write_index == (i + 1) % len
                        &&& forall|m: int|
                            0 <= m < k ==> (#[trigger] old(self).items@[(old(self).write_index + m)
                                % len].write) is None
                    },
                None => *final(self) == *old(self) && forall|j: int|
                    0 <= j < old(self).items@.len() ==> (#[trigger] old(self).items@[j].write) is None,
            },
    {
        let len = self.items.len();
        let start = self.write_index;
        let mut k: usize = 0;
        while k < len
            invariant
                self.well_formed(),
                len == self.items@.len(),
                start == old(self).write_index && start < len,
                0 <= k <= len,
                *self == *old(self),
                forall|m: int|
                    0 <= m < k ==> (#[trigger] self.items@[(start + m) % (len as int)].write)
                        is None,
            decreases len - k,
        {
            let index = (start + k) % len;
            let item = self.items[index];
            if let Some(value) = item.write {
                let mut cleared = item;
                cleared.write = None;
                self.items.set(index, cleared);
                self.write_index = (index + 1) % len;
                let addr = ValueTracker::index_addr(index);
                proof {
                    assert(cyclic_index(start as int, k as int, len as int) == index as int);
                }
                return Some(GimbalValueData { addr, value });
            }
            k = k + 1;
        }
        proof {
            assert forall|j: int| 0 <= j < len implies (#[trigger] self.items@[j].write)
                is None by {
                lemma_cycle_covers(len as int, start as int, j);
                let m = cycle_offset(start as int, j, len as int);
                assert(self.items@[(start + m) % (len as int)].write is None);
            }
        }
        None
    }

    /// Take the next live read request in round-robin order from the read
    /// cursor: a one-shot request is cleared as it is served, a continuous
    /// request older than the poll limit is expired and skipped, a live
    /// continuous request is served and kept.  None exactly when no live
    /// request remains, every request then cleared.  Values and pending
    /// writes are never touched.
    pub fn next_request(&mut self, now_millis: u64) -> (r: Option<GimbalValueAddress>)
        requires
            old(self).well_formed(),
        ensures
            final(self).well_formed(),
            final(self).items@.len() == old(self).items@.len(),
            final(self).write_index == old(self).write_index,
            forall|j: int|
                0 <= j < old(self).items@.len() ==> {
                    let item = #[trigger] final(self).items@[j];
                    &&& (item.request is None || item.request == old(self).items@[j].request)
                    &&& item.value == old(self).items@[j].value
                    &&& item.write == old(self).items@[j].write
                },
            match r {
                Some(addr) => exists|k: int|
                    #![trigger cyclic_index(old(self).request_index as int, k, old(self).items@.len() as int)]
                    {
                        let len = old(self).items@.len() as int;
                        let i = cyclic_index(old(self).request_index as int, k, len);
                        &&& 0 <= k < len
                        &&& addr == index_addr_spec(i)
                        &&& match old(self).items@[i].request {
                            Some((ts, scope)) => {
                                &&& (scope == GimbalRequestScope::Once
                                    ==> (final(self).items@[i].request) is None)
                                &&& (scope == GimbalRequestScope::Continuous ==> now_millis <= ts
                                    + MAX_CONTINUOUS_POLL_MILLIS && final(self).items@[i].request
                                    == Some((ts, scope)))
                            },
                            None => false,
                        }
                        &&& final(self).request_index == (i + 1) % len
                        &&& forall|m: int|
                            0 <= m < k ==> request_dead(
                                (#[trigger] old(self).items@[cyclic_index(
                                    old(self).request_index as int,
                                    m,
                                    len,
                                )]).request,
                                now_millis,
                            )
                    },
                None => forall|j: int|
                    0 <= j < old(self).items@.len() ==> request_dead(
                        (#[trigger] old(self).items@[j]).request,
                        now_millis,
                    ) && ((#[trigger] final(self).items@[j]).request) is None,
            },
    {
        let len = self.items.len();
        let start = self.request_index;
        let mut k: usize = 0;
        while k < len
            invariant
                self.well_formed(),
                len == self.items@.len(),
                len == old(self).items@.len(),
                start == old(self).request_index && start < len,
                0 <= k <= len,
                self.write_index == old(self).write_index,
                self.request_index == old(self).request_index,
                forall|j: int|
                    0 <= j < len ==> {
                        let item = #[trigger] self.items@[j];
                        &&& (item.request is None || item.request == old(self).items@[j].request)
                        &&& item.value == old(self).items@[j].value
                        &&& item.write == old(self).items@[j].write
                    },
                // Slots not yet visited are untouched.
                forall|m: int|
                    k <= m < len ==> #[trigger] self.items@[cyclic_index(
                        start as int,
                        m,
                        len as int,
                    )] == old(self).items@[cyclic_index(start as int, m, len as int)],
                // Every visited slot held no live request and is now clear.
                forall|m: int|
                    0 <= m < k ==> request_dead(
                        (#[trigger] old(self).items@[cyclic_index(start as int, m, len as int)]).request,
                        now_millis,
                    ) && (self.items@[cyclic_index(start as int, m, len as int)].request) is None,
            decreases len - k,
        {
            let index = (start + k) % len;
            proof {
                assert(cyclic_index(start as int, k as int, len as int) == index as int);
                assert(self.items@[index as int] == old(self).items@[index as int]);
            }
            let item = self.items[index];
            match item.request {
                None => {},
                Some((ts, GimbalRequestScope::Once)) => {
                    let mut cleared = item;
                    cleared.request = None;
                    self.items.set(index, cleared);
                    self.request_index = (index + 1) % len;
                    proof {
                        let leng = old(self).items@.len() as int;
                        let i = cyclic_index(old(self).request_index as int, k as int, leng);
                        assert(i == index as int);
                        assert(0 <= (k as int) < leng);
                        assert(old(self).items@[i].request == Some(
                            (ts, GimbalRequestScope::Once),
                        ));
                        assert(self.items@[i].request is None);
                        assert(self.request_index == (i + 1) % leng);
                        assert(forall|m: int|
                            0 <= m < k ==> request_dead(
                                (#[trigger] old(self).items@[cyclic_index(
                                    old(self).request_index as int,
                                    m,
                                    leng,
                                )]).request,
                                now_millis,
                            ));
                    }
                    return Some(ValueTracker::index_addr(index));
                },
                Some((ts, GimbalRequestScope::Continuous)) => {
                    let expired = match now_millis.checked_sub(ts) {
                        Some(age) => age > MAX_CONTINUOUS_POLL_MILLIS,
                        None => false,
                    };
                    if expired {
                        let mut cleared = item;
                        cleared.request = None;
                        self.items.set(index, cleared);
                    } else {
                        self.request_index = (index + 1) % len;
                        proof {
                            let leng = old(self).items@.len() as int;
                            let i = cyclic_index(old(self).request_index as int, k as int, leng);
                            assert(i == index as int);
                            assert(0 <= (k as int) < leng);
                            assert(old(self).items@[i].request == Some(
                                (ts, GimbalRequestScope::Continuous),
                            ));
                            assert(now_millis <= ts + MAX_CONTINUOUS_POLL_MILLIS);
                            assert(self.items@[i].request == Some(
                                (ts, GimbalRequestScope::Continuous),
                            ));
                            assert(self.request_index == (i + 1) % leng);
                            assert(forall|m: int|
                                0 <= m < k ==> request_dead(
                                    (#[trigger] old(self).items@[cyclic_index(
                                        old(self).request_index as int,
                                        m,
                                        leng,
                                    )]).request,
                                    now_millis,
                                ));
                        }
                        return Some(ValueTracker::index_addr(index));
                    }
                },
            }
            proof {
                assert forall|m: int|
                    k + 1 <= m < len implies #[trigger] self.items@[cyclic_index(
                    start as int,
                    m,
                    len as int,
                )] == old(self).items@[cyclic_index(start as int, m, len as int)] by {
                    lemma_cyclic_distinct(start as int, k as int, m, len as int);
                }
            }
            k = k + 1;
        }
        proof {
            assert forall|j: int|
                0 <= j < len implies request_dead(
                (#[trigger] old(self).items@[j]).request,
                now_millis,
            ) && ((#[trigger] self.items@[j]).request) is None by {
                lemma_cycle_covers(len as int, start as int, j);
                let m = cycle_offset(start as int, j, len as int);
                assert(request_dead(
                    old(self).items@[cyclic_index(start as int, m, len as int)].request,
                    now_millis,
                ));
                assert(self.items@[cyclic_index(start as int, m, len as int)].request is None);
            }
        }
        None
    }
}

/// A request slot that the scheduler passes over: empty, or a continuous
/// request past its poll limit.
pub open spec fn request_dead(request: Option<(u64, GimbalRequestScope)>, now_millis: u64) -> bool {
    match request {
        None => true,
        Some((ts, scope)) => scope == GimbalRequestScope::Continuous && now_millis > ts
            + MAX_CONTINUOUS_POLL_MILLIS,
    }
}

/// The slot `k` steps around the cycle from `start`.
pub open spec fn cyclic_index(start: int, k: int, len: int) -> int {
    (start + k) % len
}

/// The number of steps from `start` around the cycle to residue `j`.
pub open spec fn cycle_offset(start: int, j: int, len: int) -> int {
    if j >= start {
        j - start
    } else {
        j + len - start
    }
}

/// Distinct steps within one turn land on distinct slots.
proof fn lemma_cyclic_distinct(start: int, k: int, m: int, len: int)
    requires
        0 <= start < len,
        0 <= k < m < len,
    ensures
        cyclic_index(start, k, len) != cyclic_index(start, m, len),
{
    let d = m - k;
    let x = start + k;
    vstd::arithmetic::div_mod::lemma_fundamental_div_mod(x, len);
    let q = x / len;
    let r = x % len;
    vstd::arithmetic::div_mod::lemma_mod_bound(x, len);
    assert(x == len * q + r);
    if r + d < len {
        assert(x + d == len * q + (r + d));
        assert((x + d) % len == (r + d) % len) by {
            vstd::arithmetic::div_mod::lemma_mod_multiples_vanish(q, r + d, len);
        }
        vstd::arithmetic::div_mod::lemma_small_mod((r + d) as nat, len as nat);
    } else {
        assert(x + d == len * (q + 1) + (r + d - len)) by (nonlinear_arith)
            requires
                x == len * q + r,
                d == m - k,
        ;
        assert(0 <= r + d - len < len);
        assert((x + d) % len == (r + d - len) % len) by {
            vstd::arithmetic::div_mod::lemma_mod_multiples_vanish(q + 1, r + d - len, len);
        }
        vstd::arithmetic::div_mod::lemma_small_mod((r + d - len) as nat, len as nat);
    }
}

/// Walking `cycle_offset` steps from `start` lands exactly on `j`.
proof fn lemma_cycle_covers(len: int, start: int, j: int)
    requires
        0 <= start < len,
        0 <= j < len,
    ensures
        0 <= cycle_offset(start, j, len) < len,
        (start + cycle_offset(start, j, len)) % len == j,
{
    if j >= start {
        vstd::arithmetic::div_mod::lemma_small_mod(j as nat, len as nat);
    } else {
        vstd::arithmetic::div_mod::lemma_mod_add_multiples_vanish(j, len);
        vstd::arithmetic::div_mod::lemma_small_mod(j as nat, len as nat);
    }
}

/// A packet that answers a value read: normal framing, addressed to the
/// host, carrying the read-value opcode.
pub open spec fn is_value_reply(m: crate::gimbal_framing::GimbalPacketModel) -> bool {
    &&& m.framing == GimbalFraming::Normal
    &&& m.target == target::HOST
    &&& m.command == cmd::GET_VALUE
}

/// The packets one receive drains off a byte stream: parsing repeats while
/// packets come, and stops at the first step that yields none.
pub open spec fn drained_packets(s: Seq<u8>) -> Seq<crate::gimbal_framing::GimbalPacketModel>
    decreases s.len(),
    via drained_packets_decreases
{
    let (rem, res) = crate::gimbal_framing::parse_stream(s);
    match res {
        None => Seq::empty(),
        Some(m) => seq![m] + drained_packets(rem),
    }
}

#[via_fn]
proof fn drained_packets_decreases(s: Seq<u8>) {
    if crate::gimbal_framing::parse_stream(s).1 matches Some(_) {
        crate::gimbal_framing::lemma_parse_some_consumes(s);
    }
}

/// What one receive leaves in the framing buffer: the remainder after the
/// drain, including the garbage the final failed step discarded.
pub open spec fn drained_buffer(s: Seq<u8>) -> Seq<u8>
    decreases s.len(),
    via drained_buffer_decreases
{
    let (rem, res) = crate::gimbal_framing::parse_stream(s);
    match res {
        None => rem,
        Some(_) => drained_buffer(rem),
    }
}

#[via_fn]
proof fn drained_buffer_decreases(s: Seq<u8>) {
    if crate::gimbal_framing::parse_stream(s).1 matches Some(_) {
        crate::gimbal_framing::lemma_parse_some_consumes(s);
    }
}

/// The bus event one drained packet produces: a completed value read for a
/// well-formed reply, and the packet passed through unhandled otherwise.
pub open spec fn event_for(
    e: TimestampedMessage,
    m: crate::gimbal_framing::GimbalPacketModel,
    now_millis: u64,
) -> bool {
    &&& e.timestamp == now_millis
    &&& match e.message {
        Message::GimbalValue(d, op) => {
            &&& op == GimbalValueOp::ReadComplete
            &&& is_value_reply(m)
            &&& m.data.len() >= 2
            &&& d.value == crate::gimbal_protocol::i16_from_le(m.data[0], m.data[1])
        },
        Message::UnhandledGimbalPacket(p) => p@ == m,
        _ => false,
    }
}

/// The poller: the receive-side packet framer, the value tracker, and the
/// outgoing queues, with the in-flight read.
#[derive(Debug)]
pub struct GimbalPoller {
    pub receiver: PacketReceiver,
    /// When the last batch left, milliseconds.
    pub batch_timestamp: u64,
    /// The address of the read the gimbal has not answered yet.
    pub pending_read: Option<GimbalValueAddress>,
    pub value_tracker: ValueTracker,
    /// Queues the controller fills.
    pub port: GimbalPort,
}

impl GimbalPoller {
    /// State every operation preserves.
    pub open spec fn well_formed(&self) -> bool {
        self.value_tracker.well_formed()
    }

    /// A fresh poller with empty queues.
    pub fn new() -> (r: GimbalPoller)
        ensures
            r.well_formed(),
            r.pending_read is None,
            r.receiver.buffer@.len() == 0,
    {
        GimbalPoller {
            receiver: PacketReceiver::new(),
            batch_timestamp: 0,
            pending_read: None,
            value_tracker: ValueTracker::new(),
            port: GimbalPort::new(),
        }
    }

    /// How long a read may block before the scheduler runs anyway,
    /// milliseconds.
    pub fn read_timeout() -> (r: u64)
        ensures
            r == 50,
    {
        50
    }

    /// The outgoing queues; the controller fills them through the `port`
    /// field.
    pub fn port(&self) -> (r: &GimbalPort)
        ensures
            r == &self.port,
    {
        &self.port
    }

    /// Fold received bytes in: frame every packet the buffer now holds,
    /// pair value replies with the in-flight read, and emit one bus event
    /// per packet; if anything was received, send the next batch into
    /// `out`.
    pub fn received(
        &mut self,
        msg: &[u8],
        out: &mut Vec<u8>,
        events: &mut Vec<TimestampedMessage>,
        now_millis: u64,
    )
        requires
            old(self).well_formed(),
        ensures
            final(self).well_formed(),
            // The framing buffer ends exactly where draining the extended
            // byte stream leaves it.
            final(self).receiver.buffer@ == drained_buffer(old(self).receiver.buffer@ + msg@),
            // One event per drained packet, in order: a completed value
            // read for a well-formed reply, the packet unhandled otherwise.
            final(events)@.len() == old(events)@.len() + drained_packets(
                old(self).receiver.buffer@ + msg@,
            ).len(),
            forall|k: int|
                0 <= k < drained_packets(old(self).receiver.buffer@ + msg@).len()
                    ==> event_for(
                    #[trigger] final(events)@[old(events)@.len() + k],
                    drained_packets(old(self).receiver.buffer@ + msg@)[k],
                    now_millis,
                ),
            // A batch leaves exactly when at least one packet was drained.
            drained_packets(old(self).receiver.buffer@ + msg@).len() == 0 ==> final(out)@ == old(
                out,
            )@ && final(self).batch_timestamp == old(self).batch_timestamp && final(self).port
                == old(self).port,
            drained_packets(old(self).receiver.buffer@ + msg@).len() > 0
                ==> final(self).batch_timestamp == now_millis
                && final(self).port.writes@.len() == 0
                && final(self).port.requests@.len() == 0,
    {
        self.receiver.push_bytes(msg);
        let ghost s0 = self.receiver.buffer@;
        let ghost done = Seq::<crate::gimbal_framing::GimbalPacketModel>::empty();
        let ghost events0 = events@;
        let mut received_anything = false;
        loop
            invariant_except_break
                drained_buffer(s0) == drained_buffer(self.receiver.buffer@),
                drained_packets(s0) == done + drained_packets(self.receiver.buffer@),
            invariant
                self.well_formed(),
                self.port == old(self).port,
                self.batch_timestamp == old(self).batch_timestamp,
                events@.len() == events0.len() + done.len(),
                forall|k: int|
                    0 <= k < done.len() ==> event_for(
                        #[trigger] events@[events0.len() + k],
                        done[k],
                        now_millis,
                    ),
                received_anything == (done.len() > 0),
            ensures
                self.receiver.buffer@ == drained_buffer(s0),
                drained_packets(s0) == done,
            decreases self.receiver.buffer@.len(),
        {
            let ghost pre = self.receiver.buffer@;
            match self.receiver.next_packet() {
                Some(packet) => {
                    proof {
                        crate::gimbal_framing::lemma_parse_some_consumes(pre);
                    }
                    self.handle_packet(packet, events, now_millis);
                    proof {
                        done = done.push(packet@);
                        assert(done.drop_last() + (seq![packet@] + drained_packets(
                            self.receiver.buffer@,
                        )) =~= done + drained_packets(self.receiver.buffer@));
                    }
                    received_anything = true;
                },
                None => {
                    proof {
                        assert(drained_buffer(pre) == self.receiver.buffer@);
                        assert(drained_packets(pre) =~= Seq::<
                            crate::gimbal_framing::GimbalPacketModel,
                        >::empty());
                        assert(done + drained_packets(pre) =~= done);
                    }
                    break ;
                },
            }
        }
        if received_anything {
            self.send_next_batch(out, now_millis);
        }
    }

    /// Pair a reply with the in-flight read and emit the bus event: a
    /// well-formed value reply closes the in-flight read and lands in the
    /// tracker; everything else passes through as an unhandled packet, and
    /// a reply without an in-flight read (or with a truncated payload)
    /// still consumes it.
    fn handle_packet(
        &mut self,
        packet: GimbalPacket,
        events: &mut Vec<TimestampedMessage>,
        now_millis: u64,
    )
        requires
            old(self).well_formed(),
        ensures
            final(self).well_formed(),
            final(self).receiver == old(self).receiver,
            final(self).port == old(self).port,
            final(self).batch_timestamp == old(self).batch_timestamp,
            final(self).value_tracker.request_index == old(self).value_tracker.request_index,
            final(self).value_tracker.write_index == old(self).value_tracker.write_index,
            final(self).pending_read == if is_value_reply(packet@) {
                None::<GimbalValueAddress>
            } else {
                old(self).pending_read
            },
            ({
                match (old(self).pending_read, is_value_reply(packet@)
                    && packet@.data.len() >= 2) {
                    (Some(addr), true) => {
                        let value = crate::gimbal_protocol::i16_from_le(
                            packet@.data[0],
                            packet@.data[1],
                        ) as i16;
                        let data = GimbalValueData { addr, value };
                        &&& (match addr_index_spec(addr) {
                            Some(i) => final(self).value_tracker.items@ == old(self).value_tracker.items@.update(
                                i,
                                ValueTrackerItem {
                                    value: Some((now_millis, value)),
                                    ..old(self).value_tracker.items@[i]
                                },
                            ),
                            None => final(self).value_tracker.items == old(self).value_tracker.items,
                        })
                        &&& final(events)@ == old(events)@.push(
                            TimestampedMessage {
                                timestamp: now_millis,
                                message: Message::GimbalValue(
                                    data,
                                    GimbalValueOp::ReadComplete,
                                ),
                            },
                        )
                    },
                    _ => {
                        &&& final(self).value_tracker.items == old(self).value_tracker.items
                        &&& final(events)@ == old(events)@.push(
                            TimestampedMessage {
                                timestamp: now_millis,
                                message: Message::UnhandledGimbalPacket(packet),
                            },
                        )
                    },
                }
            }),
            final(events)@.len() == old(events)@.len() + 1,
            event_for(final(events)@.last(), packet@, now_millis),
    {
        let is_reply = matches!(packet.framing, GimbalFraming::Normal) && packet.target
            == target::HOST && packet.command == cmd::GET_VALUE;
        if is_reply {
            let taken = self.pending_read.take();
            if let Some(addr) = taken {
                if let Ok(value) = unpack::get_value(&packet) {
                    let data = GimbalValueData { addr, value };
                    self.value_tracker.store_value(now_millis, data);
                    events.push(
                        Message::GimbalValue(data, GimbalValueOp::ReadComplete).timestamp(
                            now_millis,
                        ),
                    );
                    return ;
                }
            }
        }
        events.push(Message::UnhandledGimbalPacket(packet).timestamp(now_millis));
    }

    /// Run the scheduler exactly when the read timeout has passed since
    /// the last batch; otherwise nothing happens.
    pub fn check_for_timeout(&mut self, out: &mut Vec<u8>, now_millis: u64)
        requires
            old(self).well_formed(),
        ensures
            final(self).well_formed(),
            old(self).batch_timestamp + 50 < now_millis ==> final(self).batch_timestamp
                == now_millis && final(self).port.writes@.len() == 0
                && final(self).port.requests@.len() == 0,
            !(old(self).batch_timestamp + 50 < now_millis) ==> *final(self) == *old(self)
                && final(out)@ == old(out)@,
    {
        let deadline = if self.batch_timestamp <= u64::MAX - 50 {
            self.batch_timestamp + 50
        } else {
            u64::MAX
        };
        if deadline < now_millis {
            self.send_next_batch(out, now_millis);
        }
    }

    /// Drain the port queues into the tracker and write the next batch.
    fn send_next_batch(&mut self, out: &mut Vec<u8>, now_millis: u64)
        requires
            old(self).well_formed(),
        ensures
            final(self).well_formed(),
            final(self).batch_timestamp == now_millis,
            final(self).port.writes@.len() == 0,
            final(self).port.requests@.len() == 0,
            final(self).receiver == old(self).receiver,
    {
        self.drain_command_queues(now_millis);
        self.batch_timestamp = now_millis;
        let _sent = self.write_next_batch(out, now_millis);
    }

    /// Fold every queued write and request into the tracker.
    fn drain_command_queues(&mut self, now_millis: u64)
        requires
            old(self).well_formed(),
        ensures
            final(self).well_formed(),
            final(self).port.writes@.len() == 0,
            final(self).port.requests@.len() == 0,
            final(self).receiver == old(self).receiver,
            final(self).batch_timestamp == old(self).batch_timestamp,
            final(self).pending_read == old(self).pending_read,
    {
        let nw = self.port.writes.len();
        let mut i: usize = 0;
        while i < nw
            invariant
                self.well_formed(),
                nw == self.port.writes@.len(),
                self.port.writes == old(self).port.writes,
                self.port.requests == old(self).port.requests,
                self.port.packets == old(self).port.packets,
                self.receiver == old(self).receiver,
                self.batch_timestamp == old(self).batch_timestamp,
                self.pending_read == old(self).pending_read,
                0 <= i <= nw,
            decreases nw - i,
        {
            let data = self.port.writes[i];
            self.value_tracker.store_write(data);
            i = i + 1;
        }
        self.port.writes = Vec::new();

        let nr = self.port.requests.len();
        let mut j: usize = 0;
        while j < nr
            invariant
                self.well_formed(),
                nr == self.port.requests@.len(),
                self.port.requests == old(self).port.requests,
                self.port.writes@.len() == 0,
                self.port.packets == old(self).port.packets,
                self.receiver == old(self).receiver,
                self.batch_timestamp == old(self).batch_timestamp,
                self.pending_read == old(self).pending_read,
                0 <= j <= nr,
            decreases nr - j,
        {
            let req = self.port.requests[j];
            self.value_tracker.store_request(now_millis, req);
            j = j + 1;
        }
        self.port.requests = Vec::new();
    }

    /// Emit at most one batch: raw packets and drained writes fill all but
    /// the last slot, and the last packet is a read so the gimbal answers;
    /// the in-flight read is remembered.  A read is skipped only when no
    /// live request remained in the tracker.
    fn write_next_batch(&mut self, out: &mut Vec<u8>, now_millis: u64) -> (sent: usize)
        requires
            old(self).well_formed(),
        ensures
            final(self).well_formed(),
            sent <= MAX_PACKETS_PER_READ_BATCH,
            final(self).batch_timestamp == old(self).batch_timestamp,
            final(self).receiver == old(self).receiver,
            final(self).port.writes == old(self).port.writes,
            final(self).port.requests == old(self).port.requests,
            // Either the batch ends with the read packet of the address
            // left in flight, or no live read request remained at all and
            // the in-flight read is untouched.
            ({
                ||| (final(self).pending_read matches Some(addr) && exists|prefix: Seq<u8>|
                    final(out)@ == prefix + packet_bytes(
                        crate::gimbal_framing::GimbalPacketModel {
                            framing: GimbalFraming::Normal,
                            command: cmd::GET_VALUE,
                            target: addr.target,
                            data: seq![addr.index],
                        },
                    ))
                ||| (final(self).pending_read == old(self).pending_read && forall|j: int|
                    0 <= j < final(self).value_tracker.items@.len() ==> (#[trigger] final(self).value_tracker.items@[j].request) is None)
            }),
    {
        let mut remaining: usize = MAX_PACKETS_PER_READ_BATCH;

        // Spend all but the last slot on raw packets and queued writes.
        while remaining > 1
            invariant
                self.well_formed(),
                1 <= remaining <= MAX_PACKETS_PER_READ_BATCH,
                self.pending_read == old(self).pending_read,
                self.batch_timestamp == old(self).batch_timestamp,
                self.receiver == old(self).receiver,
                self.port.writes == old(self).port.writes,
                self.port.requests == old(self).port.requests,
            decreases remaining, self.port.packets@.len(),
        {
            if self.port.packets.len() > 0 {
                let packet = self.port.packets.remove(0);
                if packet.data.len() <= MAX_PACKET_LENGTH {
                    packet.write_to(out);
                    remaining = remaining - 1;
                }
            } else {
                match self.value_tracker.next_write() {
                    Some(data) => {
                        let packet = pack::set_value(data.addr.target, data.addr.index, data.value);
                        proof {
                            assert(packet_fits(packet@));
                        }
                        packet.write_to(out);
                        remaining = remaining - 1;
                    },
                    None => {
                        break ;
                    },
                }
            }
        }

        // The last packet is a read, so the gimbal will respond.
        match self.value_tracker.next_request(now_millis) {
            Some(addr) => {
                let packet = pack::get_value(addr.target, addr.index);
                self.pending_read = Some(addr);
                let ghost before = out@;
                packet.write_to(out);
                proof {
                    assert(out@ == before + packet_bytes(packet@));
                }
                MAX_PACKETS_PER_READ_BATCH - remaining + 1
            },
            None => MAX_PACKETS_PER_READ_BATCH - remaining,
        }
    }
}

} // verus!
