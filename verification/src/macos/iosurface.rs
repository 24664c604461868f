//! The zero-copy transport of macOS: surfaces that a consumer gets from a bootstrap
//! service, because the right to a surface cannot travel over a socket.

use vstd::prelude::*;
use vstd::utf8::{encode_utf8, is_ascii_chars, is_ascii_chars_encode_utf8};

use crate::macos::embed_window::EMBED_BUFFER_COUNT;
use crate::text::{
    decimal, decimal_fits, decimal_is_ascii, decimal_is_injective, decimal_reads_back, decimal_spec,
    decimal_value, digits_only,
};
use crate::window::PixelSize;

verus! {

/// The smallest surface: as large as the buffers of the Linux producer.
pub const MAX_SIZE_FLOOR_WIDTH: u32 = 3840;

/// See [`MAX_SIZE_FLOOR_WIDTH`].
pub const MAX_SIZE_FLOOR_HEIGHT: u32 = 2160;

/// The largest surface, so that an absurd display mode does not ask for gigabytes.
pub const MAX_SIZE_CEILING_WIDTH: u32 = 7680;

/// See [`MAX_SIZE_CEILING_WIDTH`].
pub const MAX_SIZE_CEILING_HEIGHT: u32 = 4320;

/// A name as long as this cannot be registered.
pub const BOOTSTRAP_MAX_NAME_LEN: usize = 128;

/// The id of a request for the surfaces.
pub const SURFACE_REQUEST_ID: i32 = 100;

/// The id of the answer.
pub const SURFACE_REPLY_ID: i32 = 200;

/// How long the service waits for a request before it checks whether its session is
/// still alive, in milliseconds.
pub const RECEIVE_TIMEOUT_MS: u32 = 500;

/// The name of no port.
pub const MACH_PORT_NULL: u32 = 0;

/// A call of the kernel succeeded.
pub const KERN_SUCCESS: i32 = 0;

/// No message came in time.
pub const MACH_RCV_TIMED_OUT: i32 = 0x1000_4003;

/// The part of a message's bits that says what right the remote port is.
pub const MACH_MSGH_BITS_REMOTE_MASK: u32 = 0x1f;

/// The bit of a message that carries descriptors.
pub const MACH_MSGH_BITS_COMPLEX: u32 = 0x8000_0000;

/// The largest of `least` and the numbers that `pick` finds in the sizes.
pub open spec fn largest(sizes: Seq<PixelSize>, pick: spec_fn(PixelSize) -> u32, least: u32) -> u32
    decreases sizes.len(),
{
    if sizes.len() == 0 {
        least
    } else {
        let before = largest(sizes.drop_last(), pick, least);
        if pick(sizes.last()) > before {
            pick(sizes.last())
        } else {
            before
        }
    }
}

/// The size of the surfaces: large enough for every display and at least the floor,
/// but at most the ceiling.
pub open spec fn embed_max_size_spec(displays: Seq<PixelSize>) -> PixelSize {
    let width = largest(displays, |size: PixelSize| size.width, MAX_SIZE_FLOOR_WIDTH);
    let height = largest(displays, |size: PixelSize| size.height, MAX_SIZE_FLOOR_HEIGHT);
    PixelSize {
        width: if width < MAX_SIZE_CEILING_WIDTH {
            width
        } else {
            MAX_SIZE_CEILING_WIDTH
        },
        height: if height < MAX_SIZE_CEILING_HEIGHT {
            height
        } else {
            MAX_SIZE_CEILING_HEIGHT
        },
    }
}

/// The size of surfaces for displays, from that of every one in backing pixels.
pub fn max_size_for(displays: &[PixelSize]) -> (size: PixelSize)
    ensures
        size == embed_max_size_spec(displays@),
{
    let ghost by_width = |size: PixelSize| size.width;
    let ghost by_height = |size: PixelSize| size.height;
    let mut width: u32 = MAX_SIZE_FLOOR_WIDTH;
    let mut height: u32 = MAX_SIZE_FLOOR_HEIGHT;
    let mut i: usize = 0;
    assert(displays@.take(0) =~= Seq::<PixelSize>::empty());
    while i < displays.len()
        invariant
            i <= displays@.len(),
            by_width == (|size: PixelSize| size.width),
            by_height == (|size: PixelSize| size.height),
            width == largest(displays@.take(i as int), by_width, MAX_SIZE_FLOOR_WIDTH),
            height == largest(displays@.take(i as int), by_height, MAX_SIZE_FLOOR_HEIGHT),
        decreases displays@.len() - i,
    {
        let display: PixelSize = displays[i];
        if display.width > width {
            width = display.width;
        }
        if display.height > height {
            height = display.height;
        }
        assert(displays@.take(i + 1).drop_last() =~= displays@.take(i as int));
        assert(displays@.take(i + 1).last() == display);
        i += 1;
    }
    assert(displays@.take(i as int) =~= displays@);
    PixelSize {
        width: if width < MAX_SIZE_CEILING_WIDTH {
            width
        } else {
            MAX_SIZE_CEILING_WIDTH
        },
        height: if height < MAX_SIZE_CEILING_HEIGHT {
            height
        } else {
            MAX_SIZE_CEILING_HEIGHT
        },
    }
}

/// The size of the process's surfaces, once it is settled.
#[derive(Clone, Copy, Debug, PartialEq, Eq, Structural)]
pub struct SurfaceSize {
    pub settled: Option<PixelSize>,
}

/// Whether surfaces can have this size.
pub open spec fn is_surface_size(size: PixelSize) -> bool {
    MAX_SIZE_FLOOR_WIDTH <= size.width <= MAX_SIZE_CEILING_WIDTH && MAX_SIZE_FLOOR_HEIGHT
        <= size.height <= MAX_SIZE_CEILING_HEIGHT
}

proof fn max_size_is_surface_size(displays: Seq<PixelSize>)
    ensures
        is_surface_size(embed_max_size_spec(displays)),
{
    largest_is_at_least(displays, |size: PixelSize| size.width, MAX_SIZE_FLOOR_WIDTH);
    largest_is_at_least(displays, |size: PixelSize| size.height, MAX_SIZE_FLOOR_HEIGHT);
}

impl SurfaceSize {
    /// A size that is settled is one that surfaces can have.
    pub open spec fn wf(self) -> bool {
        self.settled matches Some(size) ==> is_surface_size(size)
    }

    /// The size of the surfaces, with these displays attached: the settled one, whatever
    /// they are.
    pub open spec fn size(self, displays: Seq<PixelSize>) -> PixelSize {
        match self.settled {
            Some(size) => size,
            None => embed_max_size_spec(displays),
        }
    }

    /// The size once it was asked for.
    pub open spec fn asked(self, displays: Seq<PixelSize>) -> SurfaceSize {
        SurfaceSize { settled: Some(self.size(displays)) }
    }

    /// Nothing is settled yet.
    pub fn new() -> (size: SurfaceSize)
        ensures
            size == (SurfaceSize { settled: None }),
            size.wf(),
    {
        SurfaceSize { settled: None }
    }

    /// The size of the surfaces. The displays that are attached when it is first asked
    /// for settle it: one that arrives later cannot change buffers that a consumer
    /// already holds.
    pub fn embed_max_size(&mut self, displays: &[PixelSize]) -> (size: PixelSize)
        requires
            old(self).wf(),
        ensures
            size == old(self).size(displays@),
            *final(self) == old(self).asked(displays@),
            final(self).wf(),
            is_surface_size(size),
    {
        proof {
            max_size_is_surface_size(displays@);
        }
        match self.settled {
            Some(size) => size,
            None => {
                let size: PixelSize = max_size_for(displays);
                self.settled = Some(size);
                size
            },
        }
    }
}

/// The first to ask settles the size: whatever displays are attached later, it stays.
pub proof fn later_displays_change_nothing(
    size: SurfaceSize,
    first: Seq<PixelSize>,
    later: Seq<PixelSize>,
)
    ensures
        size.asked(first).size(later) == size.size(first),
        size.asked(first).asked(later) == size.asked(first),
{
}

proof fn largest_is_largest(
    sizes: Seq<PixelSize>,
    pick: spec_fn(PixelSize) -> u32,
    least: u32,
    i: int,
)
    requires
        0 <= i < sizes.len(),
    ensures
        largest(sizes, pick, least) >= pick(sizes[i]),
        largest(sizes, pick, least) >= least,
    decreases sizes.len(),
{
    largest_is_at_least(sizes, pick, least);
    if i < sizes.len() - 1 {
        largest_is_largest(sizes.drop_last(), pick, least, i);
        assert(sizes.drop_last()[i] == sizes[i]);
    }
}

proof fn largest_is_at_least(sizes: Seq<PixelSize>, pick: spec_fn(PixelSize) -> u32, least: u32)
    ensures
        largest(sizes, pick, least) >= least,
    decreases sizes.len(),
{
    if sizes.len() > 0 {
        largest_is_at_least(sizes.drop_last(), pick, least);
    }
}

/// The surfaces are neither below the floor nor above the ceiling, and hold every
/// display that the ceiling allows for.
pub proof fn surfaces_hold_every_display(displays: Seq<PixelSize>, i: int)
    requires
        0 <= i < displays.len(),
    ensures
        ({
            let size = embed_max_size_spec(displays);
            &&& MAX_SIZE_FLOOR_WIDTH <= size.width <= MAX_SIZE_CEILING_WIDTH
            &&& MAX_SIZE_FLOOR_HEIGHT <= size.height <= MAX_SIZE_CEILING_HEIGHT
            &&& displays[i].width <= size.width || size.width == MAX_SIZE_CEILING_WIDTH
            &&& displays[i].height <= size.height || size.height == MAX_SIZE_CEILING_HEIGHT
        }),
{
    largest_is_largest(displays, |size: PixelSize| size.width, MAX_SIZE_FLOOR_WIDTH, i);
    largest_is_largest(displays, |size: PixelSize| size.height, MAX_SIZE_FLOOR_HEIGHT, i);
}

/// Without displays the surfaces are at the floor.
pub proof fn surfaces_without_displays()
    ensures
        embed_max_size_spec(seq![]) == (PixelSize {
            width: MAX_SIZE_FLOOR_WIDTH,
            height: MAX_SIZE_FLOOR_HEIGHT,
        }),
{
}

/// The name of a service: that of the process, and which of its services it is.
pub open spec fn service_name_spec(pid: u32, number: u32) -> Seq<char> {
    "dev.slop2.zed.embed."@ + decimal_spec(pid as nat) + "."@ + decimal_spec(number as nat)
}

/// The number of the service after one.
pub open spec fn next_number(number: u32) -> u32 {
    ((number + 1) % 0x1_0000_0000) as u32
}

/// The names of a process's services.
pub struct ServiceNames {
    /// The number of the next one.
    pub next: u32,
}

/// A service's name is too long to be registered.
#[derive(Clone, Copy, Debug, PartialEq, Eq, Structural)]
pub struct NameTooLong {
    pub length: usize,
}

impl ServiceNames {
    /// A name that no other service of this process has had, as long as there were
    /// fewer than 2^32.
    pub fn next_name(&mut self, pid: u32) -> (name: Result<String, NameTooLong>)
        ensures
            final(self).next == next_number(old(self).next),
            name matches Ok(name) && name@ == service_name_spec(pid, old(self).next),
    {
        let number: u32 = self.next;
        self.next = number.wrapping_add(1);
        proof {
            reveal_strlit("dev.slop2.zed.embed.");
            reveal_strlit(".");
            service_names_fit(pid, number);
        }
        let mut name: String = "dev.slop2.zed.embed.".to_string();
        name.append(decimal(pid as u64).as_str());
        name.append(".");
        name.append(decimal(number as u64).as_str());
        let length: usize = name.as_str().as_bytes().len();
        if length >= BOOTSTRAP_MAX_NAME_LEN {
            return Err(NameTooLong { length });
        }
        Ok(name)
    }
}

/// Every name is short enough to be registered.
pub proof fn service_names_fit(pid: u32, number: u32)
    ensures
        encode_utf8(service_name_spec(pid, number)).len() < BOOTSTRAP_MAX_NAME_LEN,
        is_ascii_chars(service_name_spec(pid, number)),
{
    reveal_strlit("dev.slop2.zed.embed.");
    reveal_strlit(".");
    decimal_fits(pid as nat);
    decimal_fits(number as nat);
    decimal_is_ascii(pid as nat);
    decimal_is_ascii(number as nat);
    let name = service_name_spec(pid, number);
    assert(is_ascii_chars(name));
    is_ascii_chars_encode_utf8(name);
}

/// Services of different processes, and different services of one process, have
/// different names.
pub proof fn service_names_are_distinct(pid: u32, number: u32, other_pid: u32, other: u32)
    requires
        service_name_spec(pid, number) == service_name_spec(other_pid, other),
    ensures
        pid == other_pid,
        number == other,
{
    reveal_strlit("dev.slop2.zed.embed.");
    reveal_strlit(".");
    let a = decimal_spec(pid as nat);
    let b = decimal_spec(other_pid as nat);
    let c = decimal_spec(number as nat);
    let d = decimal_spec(other as nat);
    let name = service_name_spec(pid, number);
    let same = service_name_spec(other_pid, other);
    let front = "dev.slop2.zed.embed."@.len() as int;
    digits_only(pid as nat);
    digits_only(other_pid as nat);
    assert(name[front + a.len()] == '.');
    assert(same[front + b.len()] == '.');
    if a.len() < b.len() {
        assert(same[front + a.len()] == b[a.len() as int]);
    }
    if b.len() < a.len() {
        assert(name[front + b.len()] == a[b.len() as int]);
    }
    assert(a.len() == b.len());
    assert forall|i: int| 0 <= i < a.len() implies a[i] == b[i] by {
        assert(name[front + i] == a[i]);
        assert(same[front + i] == b[i]);
    }
    assert(a =~= b);
    assert(name.len() == front + a.len() + 1 + c.len());
    assert(same.len() == front + b.len() + 1 + d.len());
    assert forall|i: int| 0 <= i < c.len() implies c[i] == d[i] by {
        assert(name[front + a.len() + 1 + i] == c[i]);
        assert(same[front + a.len() + 1 + i] == d[i]);
    }
    assert(c =~= d);
    decimal_is_injective(pid as nat, other_pid as nat);
    decimal_is_injective(number as nat, other as nat);
}

/// The ports that are no null port.
pub open spec fn live_ports(ports: Seq<u32>) -> Seq<u32> {
    ports.filter(|port: u32| port != MACH_PORT_NULL)
}

/// What is given back.
#[derive(Debug)]
pub struct Release {
    /// The ports whose send rights are dropped.
    pub send_rights: Vec<u32>,
    /// The port whose receive right is dropped, which returns its name.
    pub receive_right: Option<u32>,
}

/// The receive right that is given back, if there is one.
pub open spec fn given_back(service_port: u32) -> Option<u32> {
    if service_port == MACH_PORT_NULL {
        None
    } else {
        Some(service_port)
    }
}

/// Which rights to give back: those to every port that exists, and to the service's
/// port if it was ever registered.
pub fn release_rights(service_port: u32, ports: &[u32]) -> (release: Release)
    ensures
        release.send_rights@ == live_ports(ports@),
        release.receive_right == given_back(service_port),
{
    let ghost live = |port: u32| port != MACH_PORT_NULL;
    let mut send_rights: Vec<u32> = Vec::new();
    let mut i: usize = 0;
    proof {
        reveal(Seq::filter);
        assert(ports@.take(0).filter(live) =~= Seq::<u32>::empty());
    }
    while i < ports.len()
        invariant
            i <= ports@.len(),
            live == (|port: u32| port != MACH_PORT_NULL),
            send_rights@ == ports@.take(i as int).filter(live),
        decreases ports@.len() - i,
    {
        let port: u32 = ports[i];
        proof {
            reveal(Seq::filter);
            assert(ports@.take(i + 1).drop_last() =~= ports@.take(i as int));
            assert(ports@.take(i + 1).last() == port);
        }
        if port != MACH_PORT_NULL {
            send_rights.push(port);
        }
        i += 1;
    }
    assert(ports@.take(i as int) =~= ports@);
    let receive_right: Option<u32> = if service_port == MACH_PORT_NULL {
        None
    } else {
        Some(service_port)
    };
    Release { send_rights, receive_right }
}

/// Surfaces in the making: their size, and the ports of those that were created.
pub struct EmbedSurfaces {
    pub size: PixelSize,
    pub ports: Vec<u32>,
}

/// The index of the surface to create next, if one is missing.
pub open spec fn next_index(ports: Seq<u32>) -> Option<usize> {
    if ports.len() == EMBED_BUFFER_COUNT {
        None
    } else {
        Some(ports.len() as usize)
    }
}

/// The ports once another surface was created, or was not.
pub open spec fn ports_after<E>(ports: Seq<u32>, created: Result<u32, E>) -> Seq<u32> {
    match created {
        Ok(port) if port != MACH_PORT_NULL => ports.push(port),
        _ => ports,
    }
}

/// Why a surface could not be had, if it could not.
pub open spec fn refusal<E>(created: Result<u32, E>) -> Option<SurfaceError<E>> {
    match created {
        Ok(port) => if port == MACH_PORT_NULL {
            Some(SurfaceError::NullPort)
        } else {
            None
        },
        Err(error) => Some(SurfaceError::Call(error)),
    }
}

/// What follows the creation of a surface.
#[derive(Debug)]
pub enum SurfaceStep<E> {
    /// Create the surface with this index, of this size.
    Create { index: usize, size: PixelSize },
    /// All are there: register the service.
    Serve,
    /// Give back the rights and report the error.
    Fail { error: SurfaceError<E>, release: Release },
}

/// Why a surface could not be had.
#[derive(Debug)]
pub enum SurfaceError<E> {
    /// A call failed.
    Call(E),
    /// The surface's port is a null port.
    NullPort,
}

/// Whether the thread that answers owns the rights.
pub open spec fn is_served(registered: i32, spawned: bool) -> bool {
    registered == KERN_SUCCESS && spawned
}

/// The receive right of a service that was not started: it has one only once its name is
/// registered.
pub open spec fn unserved_right(registered: i32, service_port: u32) -> Option<u32> {
    if registered == KERN_SUCCESS {
        given_back(service_port)
    } else {
        None
    }
}

impl EmbedSurfaces {
    /// The size is one that surfaces can have, no port is a null port, and there are no
    /// more than there are buffers.
    pub open spec fn wf(self) -> bool {
        &&& is_surface_size(self.size)
        &&& self.ports@.len() <= EMBED_BUFFER_COUNT
        &&& forall|i: int| 0 <= i < self.ports@.len() ==> self.ports@[i] != MACH_PORT_NULL
    }

    /// No surface yet, and the first one to create. The size is the process's, which is
    /// settled with this if it was not.
    pub fn new<E>(size: &mut SurfaceSize, displays: &[PixelSize]) -> (result: (
        EmbedSurfaces,
        SurfaceStep<E>,
    ))
        requires
            old(size).wf(),
        ensures
            *final(size) == old(size).asked(displays@),
            final(size).wf(),
            result.0.wf(),
            result.0.size == old(size).size(displays@),
            result.0.ports@ == Seq::<u32>::empty(),
            result.1 == (SurfaceStep::<E>::Create { index: 0, size: result.0.size }),
    {
        let size: PixelSize = size.embed_max_size(displays);
        (EmbedSurfaces { size, ports: Vec::new() }, SurfaceStep::Create { index: 0, size })
    }

    /// Takes the port of the surface that was created next, or the error. A failure
    /// gives back what succeeded before it: nothing else ever would.
    pub fn add_buffer<E>(&mut self, created: Result<u32, E>) -> (step: SurfaceStep<E>)
        requires
            old(self).wf(),
            old(self).ports@.len() < EMBED_BUFFER_COUNT,
        ensures
            final(self).wf(),
            final(self).size == old(self).size,
            final(self).ports@ == ports_after(old(self).ports@, created),
            match refusal(created) {
                None => step == match next_index(final(self).ports@) {
                    Some(index) => SurfaceStep::<E>::Create { index, size: old(self).size },
                    None => SurfaceStep::Serve,
                },
                Some(why) => step matches SurfaceStep::Fail { error, release } && error == why
                    && release.send_rights@ == old(self).ports@ && release.receive_right is None,
            },
    {
        let error: SurfaceError<E> = match created {
            Ok(port) => {
                if port != MACH_PORT_NULL {
                    self.ports.push(port);
                    return if self.ports.len() == EMBED_BUFFER_COUNT {
                        SurfaceStep::Serve
                    } else {
                        SurfaceStep::Create { index: self.ports.len(), size: self.size }
                    };
                }
                SurfaceError::NullPort
            },
            Err(e) => SurfaceError::Call(e),
        };
        proof {
            all_live(self.ports@);
        }
        let release = release_rights(MACH_PORT_NULL, self.ports.as_slice());
        SurfaceStep::Fail { error, release }
    }

    /// What to give back after the service's name was registered, or was not, and the
    /// thread that answers on its port started, or did not: nothing where both
    /// succeeded, for the thread then owns the rights and gives them back when it
    /// ends.
    pub fn serve(&self, registered: i32, service_port: u32, spawned: bool) -> (release: Option<
        Release,
    >)
        requires
            self.wf(),
        ensures
            release is None <==> is_served(registered, spawned),
            release matches Some(release) ==> {
                &&& release.send_rights@ == self.ports@
                &&& release.receive_right == unserved_right(registered, service_port)
            },
    {
        proof {
            all_live(self.ports@);
        }
        if registered != KERN_SUCCESS {
            return Some(release_rights(MACH_PORT_NULL, self.ports.as_slice()));
        }
        if !spawned {
            return Some(release_rights(service_port, self.ports.as_slice()));
        }
        None
    }
}

proof fn all_live(ports: Seq<u32>)
    requires
        forall|i: int| 0 <= i < ports.len() ==> ports[i] != MACH_PORT_NULL,
    ensures
        live_ports(ports) == ports,
    decreases ports.len(),
{
    reveal(Seq::filter);
    let live = |port: u32| port != MACH_PORT_NULL;
    if ports.len() > 0 {
        all_live(ports.drop_last());
        assert(ports =~= ports.drop_last().push(ports.last()));
    } else {
        assert(ports.filter(live) =~= ports);
    }
}

/// A request as it was received.
#[derive(Clone, Copy, Debug, PartialEq, Eq, Structural)]
pub struct SurfaceRequest {
    pub bits: u32,
    pub id: i32,
    pub reply_port: u32,
}

/// The answer: a copy of the right to each surface, in the order in which frames
/// name them.
#[derive(Debug)]
pub struct SurfaceReply {
    pub bits: u32,
    pub reply_port: u32,
    pub id: i32,
    pub descriptor_count: u32,
    pub surfaces: Vec<u32>,
}

/// What the service does next.
#[derive(Debug)]
pub enum ServiceStep {
    /// Wait for the next request, if the session is still alive.
    Wait,
    /// Answer, then wait.
    Reply(SurfaceReply),
    /// Stop, and give every right back.
    Stop,
}

/// Whether the service answers: a request of its own that says where to.
pub open spec fn answers(received: i32, request: SurfaceRequest) -> bool {
    received == KERN_SUCCESS && request.id == SURFACE_REQUEST_ID && request.reply_port
        != MACH_PORT_NULL
}

/// Whether the service stops: what it received is neither a message nor a pause.
pub open spec fn stops(received: i32) -> bool {
    received != KERN_SUCCESS && received != MACH_RCV_TIMED_OUT
}

/// The bits of an answer: the right that the request gave, and that it carries descriptors.
pub open spec fn reply_bits(bits: u32) -> u32 {
    (bits % 32 + MACH_MSGH_BITS_COMPLEX) as u32
}

/// What an answer says besides the rights.
pub open spec fn is_answer(reply: SurfaceReply, request: SurfaceRequest) -> bool {
    &&& reply.bits == reply_bits(request.bits)
    &&& reply.reply_port == request.reply_port
    &&& reply.id == SURFACE_REPLY_ID
    &&& reply.descriptor_count == EMBED_BUFFER_COUNT
}

/// What the service does with what it received. Only a request with a port to answer
/// on is served: an answer hands out rights.
pub fn serve_surfaces(received: i32, request: SurfaceRequest, ports: &Vec<u32>) -> (step:
    ServiceStep)
    requires
        ports@.len() == EMBED_BUFFER_COUNT,
    ensures
        if stops(received) {
            step is Stop
        } else if !answers(received, request) {
            step is Wait
        } else {
            step matches ServiceStep::Reply(reply) && is_answer(reply, request) && reply.surfaces@
                == ports@
        },
{
    if received == MACH_RCV_TIMED_OUT {
        return ServiceStep::Wait;
    }
    if received != KERN_SUCCESS {
        return ServiceStep::Stop;
    }
    if request.id != SURFACE_REQUEST_ID {
        return ServiceStep::Wait;
    }
    if request.reply_port == MACH_PORT_NULL {
        return ServiceStep::Wait;
    }
    let bits: u32 = request.bits;
    let mask: u32 = MACH_MSGH_BITS_REMOTE_MASK;
    let complex: u32 = MACH_MSGH_BITS_COMPLEX;
    assert((bits & mask) | complex == bits % 32 + 0x8000_0000u32) by (bit_vector)
        requires
            mask == 0x1fu32,
            complex == 0x8000_0000u32,
    ;
    let mut surfaces: Vec<u32> = Vec::new();
    surfaces.extend_from_slice(ports.as_slice());
    assert(surfaces@ =~= ports@);
    ServiceStep::Reply(
        SurfaceReply {
            bits: (bits & mask) | complex,
            reply_port: request.reply_port,
            id: SURFACE_REPLY_ID,
            descriptor_count: EMBED_BUFFER_COUNT as u32,
            surfaces,
        },
    )
}

proof fn largest_is_one_of_them(sizes: Seq<PixelSize>, pick: spec_fn(PixelSize) -> u32, least: u32)
    ensures
        largest(sizes, pick, least) == least || exists|i: int|
            0 <= i < sizes.len() && pick(#[trigger] sizes[i]) == largest(sizes, pick, least),
    decreases sizes.len(),
{
    if sizes.len() > 0 {
        let shorter = sizes.drop_last();
        largest_is_one_of_them(shorter, pick, least);
        let before = largest(shorter, pick, least);
        if pick(sizes.last()) > before {
            assert(pick(sizes[sizes.len() - 1]) == largest(sizes, pick, least));
        } else if before != least {
            let i = choose|i: int| 0 <= i < shorter.len() && pick(#[trigger] shorter[i]) == before;
            assert(pick(sizes[i]) == before);
        }
    }
}

/// The surfaces are no larger than they must be: each side is the smallest that surfaces
/// have, the largest, or that of some display.
pub proof fn surfaces_are_no_larger_than_needed(displays: Seq<PixelSize>)
    ensures
        ({
            let size = embed_max_size_spec(displays);
            &&& 3840 <= size.width <= 7680
            &&& 2160 <= size.height <= 4320
            &&& size.width == 3840 || size.width == 7680 || exists|i: int|
                0 <= i < displays.len() && (#[trigger] displays[i]).width == size.width
            &&& size.height == 2160 || size.height == 4320 || exists|i: int|
                0 <= i < displays.len() && (#[trigger] displays[i]).height == size.height
            &&& size.width == 7680 ==> exists|i: int|
                0 <= i < displays.len() && (#[trigger] displays[i]).width >= 7680
            &&& size.height == 4320 ==> exists|i: int|
                0 <= i < displays.len() && (#[trigger] displays[i]).height >= 4320
        }),
{
    let by_width = |size: PixelSize| size.width;
    let by_height = |size: PixelSize| size.height;
    largest_is_one_of_them(displays, by_width, MAX_SIZE_FLOOR_WIDTH);
    largest_is_one_of_them(displays, by_height, MAX_SIZE_FLOOR_HEIGHT);
    max_size_is_surface_size(displays);
    let width = largest(displays, by_width, MAX_SIZE_FLOOR_WIDTH);
    let height = largest(displays, by_height, MAX_SIZE_FLOOR_HEIGHT);
    if width != MAX_SIZE_FLOOR_WIDTH {
        let i = choose|i: int| 0 <= i < displays.len() && by_width(#[trigger] displays[i]) == width;
        assert(displays[i].width == width);
    }
    if height != MAX_SIZE_FLOOR_HEIGHT {
        let i = choose|i: int|
            0 <= i < displays.len() && by_height(#[trigger] displays[i]) == height;
        assert(displays[i].height == height);
    }
}

/// A service's name says which process it belongs to, and then which of its services it is.
#[verifier::rlimit(50)]
pub proof fn a_name_says_whose_it_is(pid: u32, number: u32)
    ensures
        ({
            let name = service_name_spec(pid, number);
            let middle = 20 + decimal_spec(pid as nat).len() as int;
            &&& name.take(20) == "dev.slop2.zed.embed."@
            &&& decimal_value(name.subrange(20, middle)) == pid
            &&& name[middle] == '.'
            &&& decimal_value(name.skip(middle + 1)) == number
        }),
{
    reveal_strlit("dev.slop2.zed.embed.");
    reveal_strlit(".");
    let name = service_name_spec(pid, number);
    let middle = 20 + decimal_spec(pid as nat).len() as int;
    decimal_reads_back(pid as nat);
    decimal_reads_back(number as nat);
    assert(name.take(20) =~= "dev.slop2.zed.embed."@);
    assert(name.subrange(20, middle) =~= decimal_spec(pid as nat));
    assert(name.skip(middle + 1) =~= decimal_spec(number as nat));
}

/// Of every port that exists the right is given back, in their order and once for each
/// time that it is there; a null port has none.
pub proof fn every_live_right_is_given_back(ports: Seq<u32>, port: u32)
    ensures
        live_ports(Seq::empty()) == Seq::<u32>::empty(),
        port != 0 ==> live_ports(ports.push(port)) == live_ports(ports).push(port),
        port == 0 ==> live_ports(ports.push(port)) == live_ports(ports),
{
    reveal(Seq::filter);
    assert(live_ports(Seq::empty()) =~= Seq::<u32>::empty());
    assert(ports.push(port).drop_last() =~= ports);
}

/// Rights are handed out only to who asks for them: with the id of a request, over a
/// message that arrived, and with a port to answer on. A pause stops nothing, and anything
/// else that is no message stops the service.
pub proof fn rights_go_only_to_who_asks(received: i32, request: SurfaceRequest)
    ensures
        answers(received, request) ==> received == 0 && request.id == 100 && request.reply_port != 0,
        received == 0 && request.id == 100 && request.reply_port != 0 ==> answers(received, request),
        stops(received) <==> received != 0 && received != 0x1000_4003,
        !(stops(received) && answers(received, request)),
        SURFACE_REPLY_ID == 200,
{
}

/// An answer keeps the five bits by which the request says what right its port is, says that
/// it carries descriptors, and says nothing else.
pub proof fn answers_keep_the_right(bits: u32)
    ensures
        reply_bits(bits) & 0x1f == bits & 0x1f,
        reply_bits(bits) & 0x8000_0000 == 0x8000_0000,
        reply_bits(bits) & 0x7fff_ffe0 == 0,
{
    let reply: u32 = reply_bits(bits);
    assert(reply & 0x1f == bits & 0x1f && reply & 0x8000_0000 == 0x8000_0000 && reply
        & 0x7fff_ffe0 == 0) by (bit_vector)
        requires
            reply == bits % 32 + 0x8000_0000u32,
    ;
}

/// The number of the service that is so many after one.
pub open spec fn number_after(number: u32, count: nat) -> u32
    decreases count,
{
    if count == 0 {
        number
    } else {
        next_number(number_after(number, (count - 1) as nat))
    }
}

/// A service that is so many after another has a number that is as many further on, modulo
/// 2^32: no two of 2^32 services that follow one another have the same.
pub proof fn numbers_repeat_only_after_all(number: u32, count: nat)
    ensures
        number_after(number, count) == (number + count) % 0x1_0000_0000,
        0 < count < 0x1_0000_0000 ==> number_after(number, count) != number,
        number_after(number, 0x1_0000_0000) == number,
{
    number_goes_on(number, count);
    number_goes_on(number, 0x1_0000_0000);
}

proof fn number_goes_on(number: u32, count: nat)
    ensures
        number_after(number, count) == (number + count) % 0x1_0000_0000,
    decreases count,
{
    if count > 0 {
        number_goes_on(number, (count - 1) as nat);
    }
}

/// Surfaces are created one after the other until there are two, and each has its port in
/// that order. A null port is none, and neither it nor an error is taken for a surface; what
/// went wrong is what is reported.
pub proof fn surfaces_are_created_in_order(ports: Seq<u32>, created: Result<u32, u32>)
    requires
        ports.len() < 2,
    ensures
        next_index(ports) == Some(ports.len() as usize),
        refusal(created) is None <==> (created matches Ok(port) && port != 0),
        refusal(created) is Some ==> ports_after(ports, created) == ports,
        refusal(created) is None ==> {
            &&& ports_after(ports, created).len() == ports.len() + 1
            &&& ports_after(ports, created).take(ports.len() as int) == ports
            &&& created == Ok::<u32, u32>(ports_after(ports, created).last())
            &&& next_index(ports_after(ports, created)) is None <==> ports.len() == 1
        },
        created matches Ok(port) ==> (refusal(created) == Some(SurfaceError::<u32>::NullPort)
            <==> port == 0),
        created matches Err(error) ==> refusal(created) == Some(SurfaceError::Call(error)),
{
    if refusal(created) is None {
        assert(ports_after(ports, created).take(ports.len() as int) =~= ports);
    }
}

/// Rights are given back unless a thread was started for a name that is registered. A
/// service whose name is not registered has no port to give back; one whose name is gives
/// back its own.
pub proof fn rights_are_kept_only_while_served(registered: i32, service_port: u32, spawned: bool)
    ensures
        is_served(registered, spawned) <==> registered == 0 && spawned,
        registered != 0 ==> unserved_right(registered, service_port) is None,
        registered == 0 && service_port != 0 ==> unserved_right(registered, service_port) == Some(
            service_port,
        ),
        given_back(service_port) is None <==> service_port == 0,
        given_back(service_port) matches Some(port) ==> port == service_port,
{
}

/// An answer goes where the request says, is numbered a hundred above it, and brings both
/// surfaces.
pub proof fn an_answer_goes_back_with_both_surfaces(
    reply: SurfaceReply,
    received: i32,
    request: SurfaceRequest,
)
    requires
        answers(received, request),
        is_answer(reply, request),
    ensures
        reply.reply_port == request.reply_port,
        reply.id == request.id + 100,
        reply.descriptor_count == 2,
        reply.bits & 0x1f == request.bits & 0x1f,
        reply.bits & 0x8000_0000 == 0x8000_0000,
{
    answers_keep_the_right(request.bits);
}

} // verus!
