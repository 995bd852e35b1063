use vstd::prelude::*;
use crate::ffi::net::vm_soc_dns_result;
use std::collections::VecDeque;

verus! {

/// An IPv4 address by its four bytes, first byte first.
#[derive(Debug, Clone, Copy, PartialEq, Eq, Structural)]
pub struct Ipv4Addr {
    pub a: u8,
    pub b: u8,
    pub c: u8,
    pub d: u8,
}

/// The address the platform stores as `v`: its bytes in memory order,
/// which is the low byte first.
pub open spec fn spec_from_vmuint(v: u32) -> Ipv4Addr {
    Ipv4Addr {
        a: (v % 0x100) as u8,
        b: ((v / 0x100) % 0x100) as u8,
        c: ((v / 0x10000) % 0x100) as u8,
        d: (v / 0x1000000) as u8,
    }
}

/// The platform's stored value and the address are the same four bytes:
/// the address's bytes, first byte lowest, add back up to the value, and
/// different values give different addresses.
pub proof fn lemma_from_vmuint_bytes(v: u32, w: u32)
    ensures
        ({
            let ip = spec_from_vmuint(v);
            ip.a as int + 0x100 * ip.b as int + 0x10000 * ip.c as int + 0x1000000 * ip.d as int == v
        }),
        v != w ==> spec_from_vmuint(v) != spec_from_vmuint(w),
{
    let ip = spec_from_vmuint(v);
    assert(ip.a as int + 0x100 * ip.b as int + 0x10000 * ip.c as int + 0x1000000 * ip.d as int == v) by (nonlinear_arith)
        requires
            ip.a as int == v % 0x100,
            ip.b as int == (v / 0x100) % 0x100,
            ip.c as int == (v / 0x10000) % 0x100,
            ip.d as int == v / 0x1000000,
            v < 0x1_0000_0000,
    {
        assert(v / 0x1000000 < 0x100);
    }
    let iw = spec_from_vmuint(w);
    assert(iw.a as int + 0x100 * iw.b as int + 0x10000 * iw.c as int + 0x1000000 * iw.d as int == w) by (nonlinear_arith)
        requires
            iw.a as int == w % 0x100,
            iw.b as int == (w / 0x100) % 0x100,
            iw.c as int == (w / 0x10000) % 0x100,
            iw.d as int == w / 0x1000000,
            w < 0x1_0000_0000,
    {
        assert(w / 0x1000000 < 0x100);
    }
}

impl Ipv4Addr {
    /// The address the platform stores as `v`.
    pub fn from_vmuint(v: u32) -> (res: Ipv4Addr)
        ensures
            res == spec_from_vmuint(v),
    {
        Ipv4Addr {
            a: (v % 0x100) as u8,
            b: ((v / 0x100) % 0x100) as u8,
            c: ((v / 0x10000) % 0x100) as u8,
            d: (v / 0x1000000) as u8,
        }
    }

    /// The four bytes, first byte first.
    pub fn octets(&self) -> (res: [u8; 4])
        ensures
            res@ == seq![self.a, self.b, self.c, self.d],
    {
        let r = [self.a, self.b, self.c, self.d];
        assert(r@ =~= seq![self.a, self.b, self.c, self.d]);
        r
    }
}

/// The addresses of a lookup's answer, or its error cause when it has none.
pub fn parse_dns_result(raw: &vm_soc_dns_result) -> (res: Result<Vec<Ipv4Addr>, i32>)
    requires
        raw.num <= 5,
    ensures
        raw.num <= 0 ==> res == Err::<Vec<Ipv4Addr>, i32>(raw.error_cause),
        raw.num > 0 ==> (res matches Ok(v) && v@.len() == raw.num
            && forall|i: int| 0 <= i < raw.num ==> v@[i] == spec_from_vmuint(raw.address@[i])),
{
    if raw.num > 0 {
        let n = raw.num as usize;
        let mut ips: Vec<Ipv4Addr> = Vec::new();
        let mut i: usize = 0;
        while i < n
            invariant
                n == raw.num,
                n <= 5,
                i <= n,
                ips@.len() == i,
                forall|k: int| 0 <= k < i ==> ips@[k] == spec_from_vmuint(raw.address@[k]),
            decreases n - i,
        {
            ips.push(Ipv4Addr::from_vmuint(raw.address[i]));
            i = i + 1;
        }
        Ok(ips)
    } else {
        Err(raw.error_cause)
    }
}

/// Where a lookup stands.
#[derive(Debug, Clone, Copy, PartialEq, Eq, Structural)]
pub enum ResolverState {
    New,
    InQueue,
    WaitingForCallback,
}

/// What the lookup's task does on a poll.
#[derive(Debug, Clone, Copy, PartialEq, Eq, Structural)]
pub enum DnsPoll {
    /// Another lookup runs: join the queue and wait.
    Enqueue,
    /// Start the platform's lookup and wait.
    Start,
    /// Keep waiting.
    Wait,
    /// The answer is in: read it, mark the resolver free and start the next queued lookup.
    Finish,
}

/// A name lookup: the network account to use, the host name, and where it stands.
pub struct DnsResolver {
    pub apn: i32,
    pub host: String,
    pub state: ResolverState,
}

/// A new lookup of `host` over account `apn`.
pub fn resolve_host(apn: i32, host: &str) -> (res: DnsResolver)
    ensures
        res.apn == apn,
        res.host@ == host@,
        res.state == ResolverState::New,
{
    DnsResolver { apn, host: host.to_owned(), state: ResolverState::New }
}

impl DnsResolver {
    /// One poll of the lookup: a new lookup queues while another runs
    /// (`busy`) and starts otherwise; a queued one waits once more; a
    /// started one finishes.
    pub fn poll_step(&mut self, busy: bool) -> (res: DnsPoll)
        ensures
            final(self).apn == old(self).apn,
            final(self).host@ == old(self).host@,
            old(self).state == ResolverState::New && busy ==> res == DnsPoll::Enqueue
                && final(self).state == ResolverState::InQueue,
            old(self).state == ResolverState::New && !busy ==> res == DnsPoll::Start
                && final(self).state == ResolverState::WaitingForCallback,
            old(self).state == ResolverState::InQueue ==> res == DnsPoll::Wait
                && final(self).state == ResolverState::WaitingForCallback,
            old(self).state == ResolverState::WaitingForCallback ==> res == DnsPoll::Finish
                && final(self).state == ResolverState::WaitingForCallback,
    {
        match self.state {
            ResolverState::New => {
                if busy {
                    self.state = ResolverState::InQueue;
                    DnsPoll::Enqueue
                } else {
                    self.state = ResolverState::WaitingForCallback;
                    DnsPoll::Start
                }
            },
            ResolverState::InQueue => {
                self.state = ResolverState::WaitingForCallback;
                DnsPoll::Wait
            },
            ResolverState::WaitingForCallback => DnsPoll::Finish,
        }
    }
}

/// Whether a started lookup must be woken at once: every status but -2
/// ("would block"), for which the answer comes later by callback.
pub fn completes_at_once(status: i32) -> (res: bool)
    ensures
        res == (status != -2),
{
    status == 0 || status != -2
}

/// The platform answers one name lookup at a time. This keeps whether one
/// runs, and the lookups that wait for it, in order of arrival.
pub struct LookupQueue<T> {
    busy: bool,
    waiting: VecDeque<T>,
}

impl<T> LookupQueue<T> {
    /// True while a lookup runs.
    pub closed spec fn spec_busy(&self) -> bool {
        self.busy
    }

    /// The lookups that wait, first arrived first.
    pub closed spec fn spec_waiting(&self) -> Seq<T> {
        self.waiting@
    }

    /// No lookup runs or waits.
    pub fn new() -> (res: Self)
        ensures
            !res.spec_busy(),
            res.spec_waiting() == Seq::<T>::empty(),
    {
        LookupQueue { busy: false, waiting: VecDeque::new() }
    }

    /// True while a lookup runs.
    pub fn is_busy(&self) -> (res: bool)
        ensures
            res == self.spec_busy(),
    {
        self.busy
    }

    /// A lookup was handed to the platform.
    pub fn start(&mut self)
        ensures
            final(self).spec_busy(),
            final(self).spec_waiting() == old(self).spec_waiting(),
    {
        self.busy = true;
    }

    /// A lookup arrived while another runs: it waits behind the others.
    pub fn enqueue(&mut self, request: T)
        ensures
            final(self).spec_busy() == old(self).spec_busy(),
            final(self).spec_waiting() == old(self).spec_waiting().push(request),
    {
        self.waiting.push_back(request);
    }

    /// The running lookup finished: none runs any more, and the lookup that
    /// waited longest, if any, leaves the queue to be started next.
    pub fn finish(&mut self) -> (next: Option<T>)
        ensures
            !final(self).spec_busy(),
            old(self).spec_waiting().len() == 0 ==> next is None && final(self).spec_waiting() == old(self).spec_waiting(),
            old(self).spec_waiting().len() > 0 ==> next == Some(old(self).spec_waiting()[0])
                && final(self).spec_waiting() == old(self).spec_waiting().drop_first(),
    {
        self.busy = false;
        self.waiting.pop_front()
    }
}

} // verus!
