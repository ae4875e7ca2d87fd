//! One adapter per routine of the toolkit.
//!
//! An adapter takes owned values, lays them out as the routine wants them, enters
//! the routine once and turns what comes back into owned values again. The routine
//! itself is the adapter's last argument, a function value. The adapter's contract
//! fixes what that value is called with, and says what the adapter returns for
//! whatever reply there is. Where the toolkit raised its error flag the adapter
//! returns the failure, and nothing of what the routine wrote.
use vstd::prelude::*;
use vstd::string::*;
use crate::failure::{NativeFailure, Reply, Status};
use crate::text::{
    blank, declare, declare_size, declared_len, flag, flag_is_set, from_native,
    lemma_declared_len_fits, out_buffer, read_back, terminated, to_native,
};

verus! {

/// The descriptor of one segment of a DLA file: eight integers, in the order in
/// which the toolkit keeps them. The toolkit makes it, and the caller hands it
/// back as it is.
#[derive(Debug, Clone, Copy, PartialEq, Eq)]
pub struct DLADSC {
    /// Where the previous segment's descriptor lies.
    pub bwdptr: i32,
    /// Where the next segment's descriptor lies.
    pub fwdptr: i32,
    /// Base address of the segment's integers.
    pub ibase: i32,
    /// Number of the segment's integers.
    pub isize: i32,
    /// Base address of the segment's doubles.
    pub dbase: i32,
    /// Number of the segment's doubles.
    pub dsize: i32,
    /// Base address of the segment's characters.
    pub cbase: i32,
    /// Number of the segment's characters.
    pub csize: i32,
}

/// What the kernel-data routine is called with.
#[derive(Debug, PartialEq, Eq)]
pub struct KdataCall {
    /// Index of the kernel among those of the kind asked for.
    pub which: i32,
    /// The kinds of kernel that count, terminated.
    pub kind: Vec<u8>,
    /// Length declared for `file`.
    pub fillen: i32,
    /// Length declared for `filtyp`.
    pub typlen: i32,
    /// Length declared for `source`.
    pub srclen: i32,
    /// Buffer for the kernel's file name.
    pub file: Vec<u8>,
    /// Buffer for the kernel's type.
    pub filtyp: Vec<u8>,
    /// Buffer for the name of the file that loaded the kernel.
    pub source: Vec<u8>,
}

/// What the kernel-data routine leaves behind.
#[derive(Debug, PartialEq, Eq)]
pub struct KdataOutputs {
    /// The buffer that holds the kernel's file name.
    pub file: Vec<u8>,
    /// The buffer that holds the kernel's type.
    pub filtyp: Vec<u8>,
    /// The buffer that holds the name of the file that loaded the kernel.
    pub source: Vec<u8>,
    /// The kernel's handle.
    pub handle: i32,
    /// Whether there is such a kernel, as an integer flag.
    pub found: i32,
}

impl KdataCall {
    /// Whether this is the call for the given request: the kind is terminated, no
    /// declared length is negative or beyond the capacity of its buffer, and the
    /// three buffers are blank.
    pub open spec fn asks(
        &self,
        which: i32,
        kind: Seq<u8>,
        fillen: i32,
        typlen: i32,
        srclen: i32,
    ) -> bool {
        &&& self.which == which
        &&& self.kind@ == terminated(kind)
        &&& self.fillen == declared_len(fillen as int)
        &&& self.typlen == declared_len(typlen as int)
        &&& self.srclen == declared_len(srclen as int)
        &&& self.file@ == blank()
        &&& self.filtyp@ == blank()
        &&& self.source@ == blank()
    }

    /// Whether each buffer holds at least as many bytes as are declared for it.
    pub open spec fn fits(&self) -> bool {
        &&& 0 <= self.fillen <= self.file@.len()
        &&& 0 <= self.typlen <= self.filtyp@.len()
        &&& 0 <= self.srclen <= self.source@.len()
    }

    /// The call for a request never promises the toolkit more room than a buffer
    /// has, whatever lengths the request asks for.
    pub proof fn lemma_asks_fits(
        self,
        which: i32,
        kind: Seq<u8>,
        fillen: i32,
        typlen: i32,
        srclen: i32,
    )
        requires
            self.asks(which, kind, fillen, typlen, srclen),
        ensures
            self.fits(),
    {
        lemma_declared_len_fits(fillen as int);
        lemma_declared_len_fits(typlen as int);
        lemma_declared_len_fits(srclen as int);
    }

    /// Lays the call out for the given request.
    pub fn new(which: i32, kind: &str, fillen: i32, typlen: i32, srclen: i32) -> (call: KdataCall)
        ensures
            call.asks(which, kind.spec_bytes(), fillen, typlen, srclen),
    {
        KdataCall {
            which,
            kind: to_native(kind),
            fillen: declare(fillen),
            typlen: declare(typlen),
            srclen: declare(srclen),
            file: out_buffer(),
            filtyp: out_buffer(),
            source: out_buffer(),
        }
    }
}

impl KdataOutputs {
    /// Whether `kernel` is what these outputs hold when the three lengths were
    /// asked for: each text as far as it was written within its declared length,
    /// the handle as it is, and the flag as a `bool`.
    pub open spec fn holds(
        &self,
        fillen: i32,
        typlen: i32,
        srclen: i32,
        kernel: (String, String, String, i32, bool),
    ) -> bool {
        &&& kernel.0@ == read_back(self.file@, declared_len(fillen as int) as int)
        &&& kernel.1@ == read_back(self.filtyp@, declared_len(typlen as int) as int)
        &&& kernel.2@ == read_back(self.source@, declared_len(srclen as int) as int)
        &&& kernel.3 == self.handle
        &&& kernel.4 == flag_is_set(self.found)
    }

    /// Reads the outputs back as owned values.
    pub fn read(&self, fillen: i32, typlen: i32, srclen: i32) -> (kernel: (
        String,
        String,
        String,
        i32,
        bool,
    ))
        ensures
            self.holds(fillen, typlen, srclen, kernel),
    {
        let file = from_native(&self.file, declare(fillen) as usize);
        let filtyp = from_native(&self.filtyp, declare(typlen) as usize);
        let source = from_native(&self.source, declare(srclen) as usize);
        (file, filtyp, source, self.handle, flag(self.found))
    }
}

/// Whether `outcome` is what [`dlabfs`] makes of `reply`.
pub open spec fn dlabfs_outcome(
    reply: Reply<(DLADSC, i32)>,
    outcome: Result<(DLADSC, bool), NativeFailure>,
) -> bool {
    match outcome {
        Ok(segment) => {
            &&& !reply.status.raised()
            &&& segment.0 == reply.outputs.0
            &&& segment.1 == flag_is_set(reply.outputs.1)
        },
        Err(failure) => reply.status.reported_as(failure),
    }
}

/// How many of the items that a fetch routine left behind are handed on: as many
/// as it says it wrote, but no more than were asked for, nor more than are there.
pub open spec fn kept_len(n: i32, room: i32, held: int) -> int {
    if n <= 0 || room <= 0 {
        0
    } else if n <= room && n <= held {
        n as int
    } else if room <= held {
        room as int
    } else {
        held
    }
}

/// The items that are handed on of what a fetch routine left behind: the first
/// `kept_len` of them, in their order.
pub open spec fn kept<T>(n: i32, room: i32, items: Seq<T>) -> Seq<T> {
    items.take(kept_len(n, room, items.len() as int))
}

/// Whether `outcome` is what [`dskp02`] and [`dskv02`] make of `reply` when `room`
/// items were asked for: the items that were written, in their order, and their
/// number.
pub open spec fn fetch_outcome<T>(
    room: i32,
    reply: Reply<(i32, Vec<T>)>,
    outcome: Result<(i32, Vec<T>), NativeFailure>,
) -> bool {
    match outcome {
        Ok(slice) => {
            &&& !reply.status.raised()
            &&& slice.0 == slice.1@.len()
            &&& slice.1@ == kept(reply.outputs.0, room, reply.outputs.1@)
        },
        Err(failure) => reply.status.reported_as(failure),
    }
}

/// Whether `outcome` is what [`kdata`] makes of `reply` when the three lengths
/// were asked for: what the outputs hold where the flag is at rest, the failure
/// where it is raised.
pub open spec fn kdata_outcome(
    fillen: i32,
    typlen: i32,
    srclen: i32,
    reply: Reply<KdataOutputs>,
    outcome: Result<(String, String, String, i32, bool), NativeFailure>,
) -> bool {
    match outcome {
        Ok(kernel) => !reply.status.raised() && reply.outputs.holds(
            fillen,
            typlen,
            srclen,
            kernel,
        ),
        Err(failure) => reply.status.reported_as(failure),
    }
}

/// Whether `outcome` is what [`timout`] makes of `reply` when `lenout` bytes were
/// asked for: the text as far as it was written within the declared length.
pub open spec fn timout_outcome(
    lenout: usize,
    reply: Reply<Vec<u8>>,
    outcome: Result<String, NativeFailure>,
) -> bool {
    match outcome {
        Ok(text) => {
            &&& !reply.status.raised()
            &&& text@ == read_back(reply.outputs@, declared_len(lenout as int) as int)
        },
        Err(failure) => reply.status.reported_as(failure),
    }
}

/// Unloading fails each time the toolkit objects: of two calls of [`unload`] in a
/// row that both leave the flag raised, as for a kernel that is not loaded, the
/// second fails as the first did, and neither comes out as a success.
pub proof fn lemma_unload_fails_each_time(
    first: Status,
    second: Status,
    once: Result<(), NativeFailure>,
    again: Result<(), NativeFailure>,
)
    requires
        first.raised(),
        second.raised(),
        first.settles(once),
        second.settles(again),
    ensures
        first.fails(once),
        second.fails(again),
{
}

/// A failed query for kernel data hands out nothing: where the toolkit raised its
/// flag, what [`kdata`] returns is the failure, whatever the buffers hold.
pub proof fn lemma_failed_kdata_hands_out_nothing(
    fillen: i32,
    typlen: i32,
    srclen: i32,
    reply: Reply<KdataOutputs>,
    kernel: Result<(String, String, String, i32, bool), NativeFailure>,
)
    requires
        reply.status.raised(),
        kdata_outcome(fillen, typlen, srclen, reply, kernel),
    ensures
        reply.status.fails(kernel),
{
}

/// Closes a DAS file.
pub fn dascls<N>(handle: i32, native: N) -> (closed: Result<(), NativeFailure>)
    where
        N: FnOnce(i32) -> Status,
    requires
        call_requires(native, (handle,)),
    ensures
        exists|status: Status|
            #[trigger] call_ensures(native, (handle,), status) && status.settles(closed),
{
    let status = native(handle);
    status.settle()
}

/// Opens a DAS file for reading, and returns its handle.
pub fn dasopr<N>(fname: &str, native: N) -> (handle: Result<i32, NativeFailure>)
    where
        N: FnOnce(Vec<u8>) -> Reply<i32>,
    requires
        forall|text: Vec<u8>|
            text@ == terminated(fname.spec_bytes()) ==> #[trigger] call_requires(native, (text,)),
    ensures
        exists|text: Vec<u8>, reply: Reply<i32>|
            {
                &&& text@ == terminated(fname.spec_bytes())
                &&& #[trigger] call_ensures(native, (text,), reply)
                &&& reply.passes(handle)
            },
{
    let reply = native(to_native(fname));
    reply.settle()
}

/// Begins a forward search for segments in a DLA file: returns the descriptor of
/// the first segment, and whether there is one.
pub fn dlabfs<N>(handle: i32, native: N) -> (segment: Result<(DLADSC, bool), NativeFailure>)
    where
        N: FnOnce(i32) -> Reply<(DLADSC, i32)>,
    requires
        call_requires(native, (handle,)),
    ensures
        exists|reply: Reply<(DLADSC, i32)>|
            #[trigger] call_ensures(native, (handle,), reply) && dlabfs_outcome(reply, segment),
{
    let reply = native(handle);
    let ghost seen = reply;
    let segment = match reply.settle() {
        Ok(outputs) => Ok((outputs.0, flag(outputs.1))),
        Err(failure) => Err(failure),
    };
    assert(dlabfs_outcome(seen, segment));
    segment
}

/// Returns the numbers of vertices and of plates of a type 2 DSK segment, in this
/// order.
pub fn dskz02<N>(
    handle: i32,
    dladsc: DLADSC,
    native: N,
) -> (counts: Result<(i32, i32), NativeFailure>)
    where
        N: FnOnce(i32, DLADSC) -> Reply<(i32, i32)>,
    requires
        call_requires(native, (handle, dladsc)),
    ensures
        exists|reply: Reply<(i32, i32)>|
            #[trigger] call_ensures(native, (handle, dladsc), reply) && reply.passes(counts),
{
    let reply = native(handle, dladsc);
    reply.settle()
}

/// Drops from `items` what the fetch routine did not write: where it says that it
/// wrote `n` items when `room` were asked for, the first `kept_len` stay.
pub fn keep<T>(n: i32, room: i32, items: Vec<T>) -> (written: Vec<T>)
    ensures
        written@ == kept(n, room, items@),
        written@.len() <= i32::MAX,
{
    let mut written = items;
    let wanted: i32 = if n <= 0 || room <= 0 {
        0
    } else if n <= room {
        n
    } else {
        room
    };
    if (wanted as usize) < written.len() {
        written.truncate(wanted as usize);
    }
    assert(written@ =~= kept(n, room, items@));
    written
}

/// Enters a fetch routine once, and hands on the items that it wrote.
fn fetch<T, N>(
    handle: i32,
    dladsc: DLADSC,
    start: i32,
    room: i32,
    native: N,
) -> (slice: Result<(i32, Vec<T>), NativeFailure>)
    where
        N: FnOnce(i32, DLADSC, i32, i32) -> Reply<(i32, Vec<T>)>,
    requires
        call_requires(native, (handle, dladsc, start, room)),
    ensures
        exists|reply: Reply<(i32, Vec<T>)>|
            #[trigger] call_ensures(native, (handle, dladsc, start, room), reply) && fetch_outcome(
                room,
                reply,
                slice,
            ),
{
    let reply = native(handle, dladsc, start, room);
    let ghost seen = reply;
    let slice = match reply.settle() {
        Ok(outputs) => {
            let items = keep(outputs.0, room, outputs.1);
            Ok((items.len() as i32, items))
        },
        Err(failure) => Err(failure),
    };
    assert(fetch_outcome(room, seen, slice));
    slice
}

/// Fetches triangular plates from a type 2 DSK segment: up to `room` of them,
/// from the plate with the number `start` on. Returns how many there are, and the
/// plates, each as the numbers of its three vertices.
pub fn dskp02<N>(
    handle: i32,
    dladsc: DLADSC,
    start: i32,
    room: i32,
    native: N,
) -> (plates: Result<(i32, Vec<[i32; 3]>), NativeFailure>)
    where
        N: FnOnce(i32, DLADSC, i32, i32) -> Reply<(i32, Vec<[i32; 3]>)>,
    requires
        call_requires(native, (handle, dladsc, start, room)),
    ensures
        exists|reply: Reply<(i32, Vec<[i32; 3]>)>|
            #[trigger] call_ensures(native, (handle, dladsc, start, room), reply) && fetch_outcome(
                room,
                reply,
                plates,
            ),
{
    fetch(handle, dladsc, start, room, native)
}

/// Fetches vertices from a type 2 DSK segment: up to `room` of them, from the
/// vertex with the number `start` on. Returns how many there are, and the
/// vertices. The adapter never looks into a vertex, so it leaves open what stands
/// for one.
pub fn dskv02<V, N>(
    handle: i32,
    dladsc: DLADSC,
    start: i32,
    room: i32,
    native: N,
) -> (vertices: Result<(i32, Vec<V>), NativeFailure>)
    where
        N: FnOnce(i32, DLADSC, i32, i32) -> Reply<(i32, Vec<V>)>,
    requires
        call_requires(native, (handle, dladsc, start, room)),
    ensures
        exists|reply: Reply<(i32, Vec<V>)>|
            #[trigger] call_ensures(native, (handle, dladsc, start, room), reply) && fetch_outcome(
                room,
                reply,
                vertices,
            ),
{
    fetch(handle, dladsc, start, room, native)
}

/// Loads one or more kernels into the toolkit.
pub fn furnsh<N>(name: &str, native: N) -> (loaded: Result<(), NativeFailure>)
    where
        N: FnOnce(Vec<u8>) -> Status,
    requires
        forall|text: Vec<u8>|
            text@ == terminated(name.spec_bytes()) ==> #[trigger] call_requires(native, (text,)),
    ensures
        exists|text: Vec<u8>, status: Status|
            {
                &&& text@ == terminated(name.spec_bytes())
                &&& #[trigger] call_ensures(native, (text,), status)
                &&& status.settles(loaded)
            },
{
    let status = native(to_native(name));
    status.settle()
}

/// Returns the name, the type, the source and the handle of the kernel with the
/// index `which` among the loaded kernels of the given kind, and whether there is
/// such a kernel. Each text gets a buffer of `MAX_LEN_OUT` bytes, of which the
/// toolkit is told to use as many as the caller asks for.
pub fn kdata<N>(
    which: i32,
    kind: &str,
    fillen: i32,
    typlen: i32,
    srclen: i32,
    native: N,
) -> (kernel: Result<(String, String, String, i32, bool), NativeFailure>)
    where
        N: FnOnce(KdataCall) -> Reply<KdataOutputs>,
    requires
        forall|call: KdataCall|
            call.asks(which, kind.spec_bytes(), fillen, typlen, srclen) ==> #[trigger] call_requires(
                native,
                (call,),
            ),
    ensures
        exists|call: KdataCall, reply: Reply<KdataOutputs>|
            {
                &&& call.asks(which, kind.spec_bytes(), fillen, typlen, srclen)
                &&& #[trigger] call_ensures(native, (call,), reply)
                &&& kdata_outcome(fillen, typlen, srclen, reply, kernel)
            },
{
    let call = KdataCall::new(which, kind, fillen, typlen, srclen);
    let reply = native(call);
    let ghost seen = reply;
    let kernel = match reply.settle() {
        Ok(outputs) => Ok(outputs.read(fillen, typlen, srclen)),
        Err(failure) => Err(failure),
    };
    assert(kdata_outcome(fillen, typlen, srclen, seen, kernel));
    kernel
}

/// Formats the epoch `et` after the picture `pictur`, into at most `lenout`
/// bytes. The epoch goes to the toolkit as it is: the adapter never looks into
/// it, so it leaves open what stands for one.
pub fn timout<E, N>(
    et: E,
    pictur: &str,
    lenout: usize,
    native: N,
) -> (text: Result<String, NativeFailure>)
    where
        N: FnOnce(E, Vec<u8>, i32, Vec<u8>) -> Reply<Vec<u8>>,
    requires
        forall|picture: Vec<u8>, buffer: Vec<u8>|
            picture@ == terminated(pictur.spec_bytes()) && buffer@ == blank()
                ==> #[trigger] call_requires(
                native,
                (et, picture, declared_len(lenout as int), buffer),
            ),
    ensures
        exists|picture: Vec<u8>, buffer: Vec<u8>, reply: Reply<Vec<u8>>|
            {
                &&& picture@ == terminated(pictur.spec_bytes())
                &&& buffer@ == blank()
                &&& #[trigger] call_ensures(
                    native,
                    (et, picture, declared_len(lenout as int), buffer),
                    reply,
                )
                &&& timout_outcome(lenout, reply, text)
            },
{
    let declared = declare_size(lenout);
    let picture = to_native(pictur);
    let buffer = out_buffer();
    let reply = native(et, picture, declared, buffer);
    let ghost seen = reply;
    let text = match reply.settle() {
        Ok(written) => Ok(from_native(&written, declared as usize)),
        Err(failure) => Err(failure),
    };
    assert(timout_outcome(lenout, seen, text));
    text
}

/// Unloads a kernel.
pub fn unload<N>(name: &str, native: N) -> (unloaded: Result<(), NativeFailure>)
    where
        N: FnOnce(Vec<u8>) -> Status,
    requires
        forall|text: Vec<u8>|
            text@ == terminated(name.spec_bytes()) ==> #[trigger] call_requires(native, (text,)),
    ensures
        exists|text: Vec<u8>, status: Status|
            {
                &&& text@ == terminated(name.spec_bytes())
                &&& #[trigger] call_ensures(native, (text,), status)
                &&& status.settles(unloaded)
            },
{
    let status = native(to_native(name));
    status.settle()
}

} // verus!
