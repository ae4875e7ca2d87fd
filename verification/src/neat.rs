//! Conveniences over the adapters.
//!
//! Some routines of the toolkit are awkward even behind an adapter: one wants the
//! length of a text that the caller has just handed over, one wants to be asked
//! how many items there are before it hands any out, one wants a length for each
//! of three texts. The functions here ask the caller for what matters only, and
//! make the calls that it takes.
use vstd::prelude::*;
use vstd::string::*;
use vstd::utf8::encode_utf8;
use crate::failure::{NativeFailure, Reply};
use crate::raw;
use crate::raw::{kdata_outcome, kept, timout_outcome, KdataCall, KdataOutputs, DLADSC};
use crate::text::{blank, declared_len, lemma_read_back_is_bounded, terminated, TERMINATOR};
use crate::MAX_LEN_OUT;

verus! {

/// Whether `outcome` is what [`dskp02`] and [`dskv02`] make of the reply of the
/// fetch routine when `room` items were asked for: the items that were written,
/// in their order.
pub open spec fn items_outcome<T>(
    room: i32,
    fetched: Reply<(i32, Vec<T>)>,
    outcome: Result<Vec<T>, NativeFailure>,
) -> bool {
    match outcome {
        Ok(items) => {
            &&& !fetched.status.raised()
            &&& items@ == kept(fetched.outputs.0, room, fetched.outputs.1@)
        },
        Err(failure) => fetched.status.reported_as(failure),
    }
}

/// Whether each of the three numbers of `plate` is the number of a vertex of a
/// segment with `nv` vertices. The toolkit counts vertices from one.
pub open spec fn names_vertices(plate: [i32; 3], nv: i32) -> bool {
    forall|k: int| 0 <= k < 3 ==> 1 <= #[trigger] plate[k] <= nv
}

/// A formatted epoch never outgrows a buffer: whatever the picture is and
/// whatever the toolkit wrote, the text that [`timout`] returns has no more bytes
/// than `MAX_LEN_OUT`, and none of them is a terminator, so that no padding of the
/// buffer is among them.
pub proof fn lemma_formatted_text_is_bounded(
    lenout: usize,
    reply: Reply<Vec<u8>>,
    text: Result<String, NativeFailure>,
)
    requires
        timout_outcome(lenout, reply, text),
    ensures
        match text {
            Ok(formatted) => {
                &&& encode_utf8(formatted@).len() <= MAX_LEN_OUT
                &&& !encode_utf8(formatted@).contains(TERMINATOR)
            },
            Err(failure) => reply.status.reported_as(failure),
        },
{
    lemma_read_back_is_bounded(reply.outputs@, declared_len(lenout as int) as int);
}

/// Every plate of a segment is fetched: where the segment has `np` plates and the
/// toolkit writes them all, each naming vertices of the segment, [`dskp02`]
/// returns exactly `np` plates, and each names vertices of the segment.
pub proof fn lemma_all_plates_fetched(
    nv: i32,
    np: i32,
    fetched: Reply<(i32, Vec<[i32; 3]>)>,
    plates: Result<Vec<[i32; 3]>, NativeFailure>,
)
    requires
        0 <= np,
        !fetched.status.raised(),
        fetched.outputs.0 == np,
        fetched.outputs.1@.len() >= np,
        forall|i: int| 0 <= i < np ==> names_vertices(#[trigger] fetched.outputs.1@[i], nv),
        items_outcome(np, fetched, plates),
    ensures
        match plates {
            Ok(all) => {
                &&& all@.len() == np
                &&& forall|i: int| 0 <= i < np ==> names_vertices(#[trigger] all@[i], nv)
            },
            Err(_) => false,
        },
{
}

/// Every vertex of a segment is fetched: where the segment has `nv` vertices and
/// the toolkit writes them all, [`dskv02`] returns exactly `nv` vertices, and
/// whatever holds of each vertex that was written holds of each that is returned.
pub proof fn lemma_all_vertices_fetched<V>(
    nv: i32,
    fetched: Reply<(i32, Vec<V>)>,
    vertices: Result<Vec<V>, NativeFailure>,
    sound: spec_fn(V) -> bool,
)
    requires
        0 <= nv,
        !fetched.status.raised(),
        fetched.outputs.0 == nv,
        fetched.outputs.1@.len() >= nv,
        forall|i: int| 0 <= i < nv ==> sound(#[trigger] fetched.outputs.1@[i]),
        items_outcome(nv, fetched, vertices),
    ensures
        match vertices {
            Ok(all) => {
                &&& all@.len() == nv
                &&& forall|i: int| 0 <= i < nv ==> sound(#[trigger] all@[i])
            },
            Err(_) => false,
        },
{
}

/// Formats the epoch `et` after the picture `pictur`. The length that the
/// toolkit is told is that of the picture.
pub fn timout<E, N>(et: E, pictur: &str, native: N) -> (text: Result<String, NativeFailure>)
    where
        N: FnOnce(E, Vec<u8>, i32, Vec<u8>) -> Reply<Vec<u8>>,
    requires
        forall|picture: Vec<u8>, buffer: Vec<u8>|
            picture@ == terminated(pictur.spec_bytes()) && buffer@ == blank()
                ==> #[trigger] call_requires(
                native,
                (et, picture, declared_len(pictur.len() as int), buffer),
            ),
    ensures
        exists|picture: Vec<u8>, buffer: Vec<u8>, reply: Reply<Vec<u8>>|
            {
                &&& picture@ == terminated(pictur.spec_bytes())
                &&& buffer@ == blank()
                &&& #[trigger] call_ensures(
                    native,
                    (et, picture, declared_len(pictur.len() as int), buffer),
                    reply,
                )
                &&& timout_outcome(pictur.len(), reply, text)
            },
{
    let lenout = pictur.len();
    assert(declared_len(lenout as int) == declared_len(pictur.len() as int));
    raw::timout(et, pictur, lenout, native)
}

/// Fetches all the plates of a type 2 DSK segment. Asks the segment for the
/// number of its plates first, then fetches that many, from the first on. Both
/// routines are entered with the same handle and descriptor.
pub fn dskp02<C, F>(
    handle: i32,
    dladsc: DLADSC,
    count: C,
    fetch: F,
) -> (plates: Result<Vec<[i32; 3]>, NativeFailure>)
    where
        C: FnOnce(i32, DLADSC) -> Reply<(i32, i32)>,
        F: FnOnce(i32, DLADSC, i32, i32) -> Reply<(i32, Vec<[i32; 3]>)>,
    requires
        call_requires(count, (handle, dladsc)),
        forall|counted: Reply<(i32, i32)>|
            #[trigger] call_ensures(count, (handle, dladsc), counted) && !counted.status.raised()
                ==> call_requires(fetch, (handle, dladsc, 1i32, counted.outputs.1)),
    ensures
        exists|counted: Reply<(i32, i32)>|
            {
                &&& #[trigger] call_ensures(count, (handle, dladsc), counted)
                &&& counted.status.raised() ==> counted.status.fails(plates)
                &&& !counted.status.raised() ==> exists|fetched: Reply<(i32, Vec<[i32; 3]>)>|
                    {
                        &&& #[trigger] call_ensures(
                            fetch,
                            (handle, dladsc, 1i32, counted.outputs.1),
                            fetched,
                        )
                        &&& items_outcome(counted.outputs.1, fetched, plates)
                    }
            },
{
    match raw::dskz02(handle, dladsc, count) {
        Ok(counts) => match raw::dskp02(handle, dladsc, 1, counts.1, fetch) {
            Ok(slice) => Ok(slice.1),
            Err(failure) => Err(failure),
        },
        Err(failure) => Err(failure),
    }
}

/// Fetches all the vertices of a type 2 DSK segment. Asks the segment for the
/// number of its vertices first, then fetches that many, from the first on. Both
/// routines are entered with the same handle and descriptor.
pub fn dskv02<V, C, F>(
    handle: i32,
    dladsc: DLADSC,
    count: C,
    fetch: F,
) -> (vertices: Result<Vec<V>, NativeFailure>)
    where
        C: FnOnce(i32, DLADSC) -> Reply<(i32, i32)>,
        F: FnOnce(i32, DLADSC, i32, i32) -> Reply<(i32, Vec<V>)>,
    requires
        call_requires(count, (handle, dladsc)),
        forall|counted: Reply<(i32, i32)>|
            #[trigger] call_ensures(count, (handle, dladsc), counted) && !counted.status.raised()
                ==> call_requires(fetch, (handle, dladsc, 1i32, counted.outputs.0)),
    ensures
        exists|counted: Reply<(i32, i32)>|
            {
                &&& #[trigger] call_ensures(count, (handle, dladsc), counted)
                &&& counted.status.raised() ==> counted.status.fails(vertices)
                &&& !counted.status.raised() ==> exists|fetched: Reply<(i32, Vec<V>)>|
                    {
                        &&& #[trigger] call_ensures(
                            fetch,
                            (handle, dladsc, 1i32, counted.outputs.0),
                            fetched,
                        )
                        &&& items_outcome(counted.outputs.0, fetched, vertices)
                    }
            },
{
    match raw::dskz02(handle, dladsc, count) {
        Ok(counts) => match raw::dskv02(handle, dladsc, 1, counts.0, fetch) {
            Ok(slice) => Ok(slice.1),
            Err(failure) => Err(failure),
        },
        Err(failure) => Err(failure),
    }
}

/// Returns the name, the type, the source and the handle of the kernel with the
/// index `which` among the loaded kernels of the given kind, and whether there is
/// such a kernel. Each of the three texts may be as long as a buffer is.
pub fn kdata<N>(
    which: i32,
    kind: &str,
    native: N,
) -> (kernel: Result<(String, String, String, i32, bool), NativeFailure>)
    where
        N: FnOnce(KdataCall) -> Reply<KdataOutputs>,
    requires
        forall|call: KdataCall|
            call.asks(
                which,
                kind.spec_bytes(),
                MAX_LEN_OUT as i32,
                MAX_LEN_OUT as i32,
                MAX_LEN_OUT as i32,
            ) ==> #[trigger] call_requires(native, (call,)),
    ensures
        exists|call: KdataCall, reply: Reply<KdataOutputs>|
            {
                &&& call.asks(
                    which,
                    kind.spec_bytes(),
                    MAX_LEN_OUT as i32,
                    MAX_LEN_OUT as i32,
                    MAX_LEN_OUT as i32,
                )
                &&& #[trigger] call_ensures(native, (call,), reply)
                &&& kdata_outcome(
                    MAX_LEN_OUT as i32,
                    MAX_LEN_OUT as i32,
                    MAX_LEN_OUT as i32,
                    reply,
                    kernel,
                )
            },
{
    raw::kdata(
        which,
        kind,
        MAX_LEN_OUT as i32,
        MAX_LEN_OUT as i32,
        MAX_LEN_OUT as i32,
        native,
    )
}

} // verus!
