use vstd::prelude::*;

use crate::crtp::{
    le_u16, read_le_u16, u16_hi, u16_lo, CRTP_CMD_TOC_INFO, CRTP_CMD_TOC_ITEM, CRTP_LOGGING_PORT,
    CRTP_TOC_CHANNEL,
};
use crate::errors::ProtocolError;
use crate::packet::Packet;

verus! {

/// Relies on std's String::push: it appends the given character to the
/// end of the string.
pub assume_specification[ String::push ](s: &mut String, ch: char)
    ensures
        final(s)@ == old(s)@.push(ch),
;

/// Whether a byte is an ASCII alphabetic character.
pub open spec fn is_ascii_alpha(b: u8) -> bool {
    (0x41 <= b && b <= 0x5a) || (0x61 <= b && b <= 0x7a)
}

/// Tests whether a byte is an ASCII alphabetic character.
fn ascii_alpha(b: u8) -> (r: bool)
    ensures
        r == is_ascii_alpha(b),
{
    (0x41 <= b && b <= 0x5a) || (0x61 <= b && b <= 0x7a)
}

/// The qualified name a directory item's name field carries. The field is
/// two null-terminated ASCII runs, group then variable; decoding walks the
/// bytes as a two-state machine: the first terminator becomes a literal
/// `.` separator, the second ends the name, and of the rest only ASCII
/// alphabetic bytes are kept.
pub open spec fn name_chars(data: Seq<u8>, found_dot: bool) -> Seq<char>
    decreases data.len(),
{
    if data.len() == 0 {
        Seq::empty()
    } else if data[0] == 0 {
        if found_dot {
            Seq::empty()
        } else {
            seq!['.'] + name_chars(data.drop_first(), true)
        }
    } else if is_ascii_alpha(data[0]) {
        seq![data[0] as char] + name_chars(data.drop_first(), found_dot)
    } else {
        name_chars(data.drop_first(), found_dot)
    }
}

/// Decodes a directory item's name field into its qualified
/// `<group>.<variable>` form.
pub fn parse_name(data: &[u8]) -> (name: String)
    ensures
        name@ == name_chars(data@, false),
{
    let mut found_dot = false;
    let mut name = String::new();

    proof {
        assert(data@.skip(0) =~= data@);
        assert(Seq::<char>::empty() + name_chars(data@, false) =~= name_chars(data@, false));
    }

    let mut i: usize = 0;
    while i < data.len()
        invariant
            i <= data@.len(),
            name_chars(data@, false) == name@ + name_chars(data@.skip(i as int), found_dot),
        decreases data@.len() - i,
    {
        proof {
            assert(data@.skip(i as int).drop_first() =~= data@.skip(i + 1));
        }
        let byte = data[i];
        if byte == 0 {
            if found_dot {
                proof {
                    assert(name_chars(data@, false) =~= name@);
                }
                return name;
            }
            found_dot = true;
            name.push('.');
        } else if ascii_alpha(byte) {
            name.push(byte as char);
        }
        i += 1;
    }
    proof {
        assert(data@.skip(data@.len() as int) =~= Seq::<u8>::empty());
        assert(name_chars(data@, false) =~= name@);
    }
    name
}

/// One binding of the device's variable directory.
pub struct TocEntry {
    pub name: String,
    pub ident: u16,
}

/// The directory a resolution run produces: qualified variable names bound
/// to the identifiers the remote device assigned. A later binding for the
/// same name overwrites an earlier one.
pub struct Toc {
    entries: Vec<TocEntry>,
}

/// The mapping a run of bindings denotes, later bindings winning.
pub open spec fn toc_map(entries: Seq<TocEntry>) -> Map<Seq<char>, u16>
    decreases entries.len(),
{
    if entries.len() == 0 {
        Map::empty()
    } else {
        toc_map(entries.drop_last()).insert(entries.last().name@, entries.last().ident)
    }
}

impl View for Toc {
    type V = Map<Seq<char>, u16>;

    closed spec fn view(&self) -> Map<Seq<char>, u16> {
        toc_map(self.entries@)
    }
}

/// A suffix of bindings whose names all differ from `name` never touches
/// what the mapping holds at `name`.
proof fn lemma_unmatched_suffix(entries: Seq<TocEntry>, name: Seq<char>, i: int)
    requires
        0 <= i <= entries.len(),
        forall|j: int| i <= j < entries.len() ==> (#[trigger] entries[j].name)@ != name,
    ensures
        toc_map(entries).contains_key(name) <==> toc_map(entries.take(i)).contains_key(name),
        toc_map(entries).contains_key(name) ==> toc_map(entries)[name] == toc_map(
            entries.take(i),
        )[name],
    decreases entries.len() - i,
{
    if i == entries.len() {
        assert(entries.take(i) =~= entries);
    } else {
        lemma_unmatched_suffix(entries, name, i + 1);
        assert(entries.take(i + 1).drop_last() =~= entries.take(i));
        assert(entries.take(i + 1).last() == entries[i]);
    }
}

impl Toc {
    /// An empty directory.
    pub fn new() -> (t: Toc)
        ensures
            t@ == Map::<Seq<char>, u16>::empty(),
    {
        Toc { entries: Vec::new() }
    }

    /// Binds a name to an identifier; a later duplicate name overwrites an
    /// earlier one.
    pub fn insert(&mut self, name: String, ident: u16)
        ensures
            final(self)@ == old(self)@.insert(name@, ident),
    {
        let ghost before = self.entries@;
        self.entries.push(TocEntry { name, ident });
        proof {
            assert(self.entries@.drop_last() =~= before);
        }
    }

    /// Looks a qualified name up; the latest binding wins, and a name that
    /// was never bound is absent.
    pub fn get(&self, name: &String) -> (r: Option<u16>)
        ensures
            r is Some <==> self@.contains_key(name@),
            r matches Some(ident) ==> ident == self@[name@],
    {
        let mut i: usize = self.entries.len();
        while i > 0
            invariant
                i <= self.entries@.len(),
                forall|j: int| i <= j < self.entries@.len()
                    ==> (#[trigger] self.entries@[j].name)@ != name@,
            decreases i,
        {
            i -= 1;
            if self.entries[i].name == *name {
                proof {
                    lemma_unmatched_suffix(self.entries@, name@, i + 1);
                    assert(self.entries@.take(i + 1).drop_last() =~= self.entries@.take(i as int));
                    assert(self.entries@.take(i + 1).last() == self.entries@[i as int]);
                }
                return Some(self.entries[i].ident);
            }
        }
        proof {
            lemma_unmatched_suffix(self.entries@, name@, 0);
            assert(self.entries@.take(0) =~= Seq::<TocEntry>::empty());
        }
        None
    }
}

/// The error a failed exchange surfaces during the directory walk: a
/// timeout or a malformed reply aborts resolution as a whole, leaving no
/// partial directory; a failure of the transport itself keeps its own
/// meaning.
pub fn resolution_failure(e: ProtocolError) -> (r: ProtocolError)
    ensures
        e is TransportError ==> r == ProtocolError::TransportError,
        !(e is TransportError) ==> r == ProtocolError::TocResolutionFailed,
{
    match e {
        ProtocolError::TransportError => ProtocolError::TransportError,
        _ => ProtocolError::TocResolutionFailed,
    }
}

/// What the resolver is waiting for.
pub enum ResolverPhase {
    /// The reply to the directory-info request.
    AwaitInfo,
    /// The reply to the directory-item request for index `next`.
    AwaitItem,
}

/// Walks the remote device's variable directory: one info exchange to
/// learn how many items there are, then one item exchange per index. The
/// surrounding program sends each request this machine hands out and
/// feeds back the matching reply the exchange filter accepted.
pub struct TocResolver {
    pub phase: ResolverPhase,
    pub count: u16,
    pub next: u16,
    pub toc: Toc,
}

/// What the walk does after one reply.
pub enum ResolverStep {
    /// The walk goes on: the machine awaiting the next reply, and the
    /// request to send for it.
    Continue(TocResolver, Packet),
    /// The walk is complete with the finished directory.
    Done(Toc),
    /// The walk aborted; no partial directory is handed out.
    Failed(ProtocolError),
}

/// The payload of a directory-item request: the command tag, then the
/// item's index as two little-endian bytes.
pub open spec fn item_request_bytes(index: u16) -> Seq<u8> {
    seq![CRTP_CMD_TOC_ITEM, u16_lo(index), u16_hi(index)]
}

/// The directory-item request for one index.
fn item_request(index: u16) -> (p: Packet)
    ensures
        p.port == CRTP_LOGGING_PORT,
        p.channel == CRTP_TOC_CHANNEL,
        p.data@ == item_request_bytes(index),
{
    Packet::new(
        CRTP_LOGGING_PORT,
        CRTP_TOC_CHANNEL,
        vec![CRTP_CMD_TOC_ITEM, (index % 0x100) as u8, (index / 0x100) as u8],
    )
}

impl TocResolver {
    /// While items are awaited, the next index lies under the count.
    pub open spec fn wf(self) -> bool {
        self.phase is AwaitItem ==> self.next < self.count
    }

    /// Begins a walk: the machine awaits the info reply, and the returned
    /// packet is the info request to send.
    pub fn start() -> (r: (TocResolver, Packet))
        ensures
            r.0.wf(),
            r.0.phase is AwaitInfo,
            r.0.toc@ == Map::<Seq<char>, u16>::empty(),
            r.1.port == CRTP_LOGGING_PORT,
            r.1.channel == CRTP_TOC_CHANNEL,
            r.1.data@ == seq![CRTP_CMD_TOC_INFO],
    {
        let resolver = TocResolver {
            phase: ResolverPhase::AwaitInfo,
            count: 0,
            next: 0,
            toc: Toc::new(),
        };
        let request = Packet::new(CRTP_LOGGING_PORT, CRTP_TOC_CHANNEL, vec![CRTP_CMD_TOC_INFO]);
        (resolver, request)
    }

    /// Advances the walk on the matching reply to the request last handed
    /// out. A reply too short for its fixed-offset fields aborts the walk,
    /// and nothing else does; an info reply announcing zero items
    /// completes it at once.
    pub fn on_reply(self, reply: &Packet) -> (r: ResolverStep)
        requires
            self.wf(),
        ensures
            r is Failed <==> reply.data@.len() < 3,
            r is Failed ==> r == ResolverStep::Failed(ProtocolError::TocResolutionFailed),
            self.phase is AwaitInfo && reply.data@.len() >= 3
                && le_u16(reply.data@[1], reply.data@[2]) == 0 ==>
                (r matches ResolverStep::Done(t) && t@ == self.toc@),
            self.phase is AwaitInfo && reply.data@.len() >= 3
                && le_u16(reply.data@[1], reply.data@[2]) > 0 ==>
                (r matches ResolverStep::Continue(m, req) && {
                    &&& m.phase is AwaitItem
                    &&& m.count == le_u16(reply.data@[1], reply.data@[2])
                    &&& m.next == 0
                    &&& m.toc@ == self.toc@
                    &&& m.wf()
                    &&& req.port == CRTP_LOGGING_PORT
                    &&& req.channel == CRTP_TOC_CHANNEL
                    &&& req.data@ == item_request_bytes(0)
                }),
            self.phase is AwaitItem && reply.data@.len() >= 3 && self.next + 1 == self.count ==>
                (r matches ResolverStep::Done(t) && t@ == self.toc@.insert(
                    name_chars(reply.data@.skip(3), false),
                    le_u16(reply.data@[1], reply.data@[2]),
                )),
            self.phase is AwaitItem && reply.data@.len() >= 3 && self.next + 1 < self.count ==>
                (r matches ResolverStep::Continue(m, req) && {
                    &&& m.phase is AwaitItem
                    &&& m.count == self.count
                    &&& m.next == self.next + 1
                    &&& m.toc@ == self.toc@.insert(
                        name_chars(reply.data@.skip(3), false),
                        le_u16(reply.data@[1], reply.data@[2]),
                    )
                    &&& m.wf()
                    &&& req.port == CRTP_LOGGING_PORT
                    &&& req.channel == CRTP_TOC_CHANNEL
                    &&& req.data@ == item_request_bytes((self.next + 1) as u16)
                }),
    {
        if reply.data.len() < 3 {
            return ResolverStep::Failed(ProtocolError::TocResolutionFailed);
        }
        match self.phase {
            ResolverPhase::AwaitInfo => {
                let count = read_le_u16(reply.data[1], reply.data[2]);
                if count == 0 {
                    ResolverStep::Done(self.toc)
                } else {
                    let machine = TocResolver {
                        phase: ResolverPhase::AwaitItem,
                        count,
                        next: 0,
                        toc: self.toc,
                    };
                    ResolverStep::Continue(machine, item_request(0))
                }
            },
            ResolverPhase::AwaitItem => {
                let ident = read_le_u16(reply.data[1], reply.data[2]);
                let name = parse_name(vstd::slice::slice_subrange(
                    reply.data.as_slice(),
                    3,
                    reply.data.len(),
                ));
                let mut toc = self.toc;
                toc.insert(name, ident);
                let done = self.next + 1;
                if done == self.count {
                    ResolverStep::Done(toc)
                } else {
                    let machine = TocResolver {
                        phase: ResolverPhase::AwaitItem,
                        count: self.count,
                        next: done,
                        toc,
                    };
                    ResolverStep::Continue(machine, item_request(done))
                }
            },
        }
    }
}

} // verus!
