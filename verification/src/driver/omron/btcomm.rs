//! Packets, their checksum, and the link that carries them.

use vstd::prelude::*;

use crate::btutil::Error;

verus! {

/// XOR of all bytes of `s`, zero for the empty sequence.
pub open spec fn xor_fold(s: Seq<u8>) -> u8
    decreases s.len(),
{
    if s.len() == 0 {
        0u8
    } else {
        xor_fold(s.drop_last()) ^ s.last()
    }
}

/// The fold of a concatenation is the XOR of the folds.
pub proof fn lemma_xor_fold_concat(a: Seq<u8>, b: Seq<u8>)
    ensures
        xor_fold(a + b) == xor_fold(a) ^ xor_fold(b),
    decreases b.len(),
{
    if b.len() == 0 {
        assert(a + b =~= a);
        let x = xor_fold(a);
        assert(x ^ 0u8 == x) by (bit_vector);
    } else {
        assert((a + b).drop_last() =~= a + b.drop_last());
        assert((a + b).last() == b.last());
        lemma_xor_fold_concat(a, b.drop_last());
        let x = xor_fold(a);
        let y = xor_fold(b.drop_last());
        let z = b.last();
        assert((x ^ y) ^ z == x ^ (y ^ z)) by (bit_vector);
    }
}

/// The fold does not depend on the order of the two halves.
pub proof fn lemma_xor_fold_commutes(a: Seq<u8>, b: Seq<u8>)
    ensures
        xor_fold(a + b) == xor_fold(b + a),
{
    lemma_xor_fold_concat(a, b);
    lemma_xor_fold_concat(b, a);
    let x = xor_fold(a);
    let y = xor_fold(b);
    assert(x ^ y == y ^ x) by (bit_vector);
}

/// A byte sequence followed by its own fold folds to zero.
pub proof fn lemma_xor_fold_sealed(bytes: Seq<u8>)
    ensures
        xor_fold(bytes.push(xor_fold(bytes))) == 0,
{
    let c = xor_fold(bytes);
    assert(bytes.push(c).drop_last() =~= bytes);
    assert(c ^ c == 0u8) by (bit_vector);
}

/// XOR checksum of `pkt`.
pub fn crc(pkt: &[u8]) -> (sum: u8)
    ensures
        sum == xor_fold(pkt@),
{
    let mut acc: u8 = 0;
    let mut i: usize = 0;
    while i < pkt.len()
        invariant
            i <= pkt.len(),
            acc == xor_fold(pkt@.take(i as int)),
        decreases pkt.len() - i,
    {
        assert(pkt@.take(i + 1).drop_last() =~= pkt@.take(i as int));
        acc = acc ^ pkt[i];
        i += 1;
    }
    assert(pkt@.take(i as int) =~= pkt@);
    acc
}

/// Bytes of a packet that are not payload: length, opcode and checksum.
pub const PKT_HDR_SIZE: usize = 4;

/// The longest payload whose packet length still fits the length byte.
pub const PKT_MAX_DATA: usize = 251;

/// The two opcode bytes of a packet, high byte first, as one number.
pub open spec fn opcode_of(hi: u8, lo: u8) -> u16 {
    (hi as u16) << 8 | (lo as u16)
}

/// The packet of a command: length byte, opcode high and low, the payload,
/// and the checksum that makes the whole packet fold to zero.
pub open spec fn packet(op: u16, data: Seq<u8>) -> Seq<u8>
    recommends
        data.len() <= PKT_MAX_DATA,
{
    let head = seq![(data.len() + 4) as u8, (op >> 8) as u8, (op & 0xff) as u8] + data;
    head.push(xor_fold(head))
}

/// A received packet is valid if it has at least the header, is as long as
/// its first byte says, and folds to zero.
pub open spec fn valid_packet(pkt: Seq<u8>) -> bool {
    pkt.len() >= 4 && pkt[0] == pkt.len() && xor_fold(pkt) == 0
}

/// Opcode and payload of a packet of at least four bytes, or `CrcMismatch`.
pub open spec fn unpack(pkt: Seq<u8>) -> Result<(u16, Seq<u8>), Error>
    recommends
        pkt.len() >= 4,
{
    if xor_fold(pkt) != 0 {
        Err(Error::CrcMismatch)
    } else {
        Ok((opcode_of(pkt[1], pkt[2]), pkt.subrange(3, pkt.len() - 1)))
    }
}

/// A packet built from an opcode and a payload is valid and unpacks to them.
pub proof fn lemma_packet_unpacks(op: u16, data: Seq<u8>)
    requires
        data.len() <= PKT_MAX_DATA,
    ensures
        packet(op, data).len() == data.len() + 4,
        valid_packet(packet(op, data)),
        unpack(packet(op, data)) == Ok::<(u16, Seq<u8>), Error>((op, data)),
{
    let head = seq![(data.len() + 4) as u8, (op >> 8) as u8, (op & 0xff) as u8] + data;
    let pkt = packet(op, data);
    lemma_xor_fold_sealed(head);
    let hi = (op >> 8) as u8;
    let lo = (op & 0xff) as u8;
    assert((((op >> 8) as u8) as u16) << 8 | (((op & 0xff) as u8) as u16) == op) by (bit_vector);
    assert(pkt[1] == hi && pkt[2] == lo);
    assert(pkt.subrange(3, pkt.len() - 1) =~= data);
}

/// How many frames of at most `size` bytes a packet of `len` bytes takes.
pub open spec fn chunk_count(len: nat, size: nat) -> nat
    recommends
        size > 0,
{
    ((len + size - 1) / (size as int)) as nat
}

/// The `i`-th frame of `pkt` cut into frames of `size` bytes.
pub open spec fn chunk(pkt: Seq<u8>, size: nat, i: int) -> Seq<u8>
    recommends
        size > 0,
        0 <= i < chunk_count(pkt.len(), size),
{
    let end = if (i + 1) * size < pkt.len() { (i + 1) * size } else { pkt.len() as int };
    pkt.subrange(i * size, end)
}

/// `pkt` cut into frames of `size` bytes, the last one possibly shorter.
pub open spec fn chunks(pkt: Seq<u8>, size: nat) -> Seq<Seq<u8>>
    recommends
        size > 0,
{
    Seq::new(chunk_count(pkt.len(), size), |i: int| chunk(pkt, size, i))
}

/// What a list of frames holds, as sequences of bytes.
pub open spec fn frames_view(frames: Seq<Vec<u8>>) -> Seq<Seq<u8>> {
    frames.map_values(|f: Vec<u8>| f@)
}

/// `k` frames are enough for `len` bytes exactly if `len <= size * k`.
pub proof fn lemma_chunk_count(len: nat, size: nat, k: nat)
    requires
        size > 0,
    ensures
        chunk_count(len, size) <= k <==> len <= size * k,
        len > 0 ==> chunk_count(len, size) > 0,
        (chunk_count(len, size) - 1) * size < len || len == 0,
        len <= chunk_count(len, size) * size,
{
    let c = (len + size - 1) / (size as int);
    assert(c * size <= len + size - 1 < c * size + size) by (nonlinear_arith)
        requires
            size > 0,
            c == (len + size - 1) / (size as int),
    ;
    assert(c >= 0) by (nonlinear_arith)
        requires
            size > 0,
            c * size + size > len + size - 1,
            len >= 0,
    ;
    assert(c <= k <==> len <= size * k) by (nonlinear_arith)
        requires
            size > 0,
            c * size <= len + size - 1 < c * size + size,
    ;
    assert(len > 0 ==> c > 0) by (nonlinear_arith)
        requires
            size > 0,
            c * size <= len + size - 1 < c * size + size,
    ;
    assert((c - 1) * size == c * size - size) by (nonlinear_arith);
}

/// The first `k` frames of a packet, one after the other, are its first
/// `k * size` bytes, or all of it.
proof fn lemma_chunks_prefix(pkt: Seq<u8>, size: nat, k: nat)
    requires
        size > 0,
        k <= chunk_count(pkt.len(), size),
    ensures
        chunks(pkt, size).take(k as int).flatten() == pkt.take(
            if k * size < pkt.len() {
                (k * size) as int
            } else {
                pkt.len() as int
            },
        ),
    decreases k,
{
    let all = chunks(pkt, size);
    if k == 0 {
        assert(all.take(0).flatten() =~= Seq::<u8>::empty());
        assert(0 * size == 0) by (nonlinear_arith);
        assert(pkt.take(0) =~= Seq::<u8>::empty());
    } else {
        let j = (k - 1) as nat;
        lemma_chunks_prefix(pkt, size, j);
        lemma_chunk_count(pkt.len(), size, 0);
        assert(j * size < pkt.len()) by (nonlinear_arith)
            requires
                j + 1 <= chunk_count(pkt.len(), size),
                (chunk_count(pkt.len(), size) - 1) * size < pkt.len(),
                size > 0,
        ;
        assert((j + 1) * size == j * size + size) by (nonlinear_arith);
        assert(all.take(k as int) =~= all.take(j as int).push(all[j as int]));
        all.take(j as int).lemma_flatten_push(all[j as int]);
        assert(all[j as int] == chunk(pkt, size, j as int));
    }
}

/// The frames of a packet, one after the other, are the packet.
pub proof fn lemma_chunks_flatten(pkt: Seq<u8>, size: nat)
    requires
        size > 0,
    ensures
        chunks(pkt, size).flatten() == pkt,
{
    let k = chunk_count(pkt.len(), size);
    lemma_chunks_prefix(pkt, size, k);
    lemma_chunk_count(pkt.len(), size, k);
    assert(chunks(pkt, size).take(k as int) =~= chunks(pkt, size));
    assert(k * size == size * k) by (nonlinear_arith);
    assert(pkt.take(pkt.len() as int) =~= pkt);
}

/// Copy of the bytes `from..to` of `src`.
pub fn copy_range(src: &[u8], from: usize, to: usize) -> (out: Vec<u8>)
    requires
        from <= to <= src@.len(),
    ensures
        out@ == src@.subrange(from as int, to as int),
{
    let mut out: Vec<u8> = Vec::new();
    let mut i: usize = from;
    while i < to
        invariant
            from <= i <= to <= src@.len(),
            out@ == src@.subrange(from as int, i as int),
        decreases to - i,
    {
        out.push(src[i]);
        assert(out@ =~= src@.subrange(from as int, i + 1));
        i += 1;
    }
    out
}

/// Appends the bytes of `src` to `dst`.
pub fn append_bytes(dst: &mut Vec<u8>, src: &[u8])
    ensures
        final(dst)@ == old(dst)@ + src@,
{
    let mut i: usize = 0;
    while i < src.len()
        invariant
            i <= src@.len(),
            dst@ == old(dst)@ + src@.take(i as int),
        decreases src@.len() - i,
    {
        dst.push(src[i]);
        assert(dst@ =~= old(dst)@ + src@.take(i + 1));
        i += 1;
    }
    assert(src@.take(i as int) =~= src@);
}

/// What a link is made of: how many characteristics it writes to, how many
/// it reads from, and how many bytes one write carries at most.
pub struct BTCommView {
    pub tx_count: nat,
    pub rx_count: nat,
    pub chunk_size: nat,
}

/// The link to a device: an ordered list of write characteristics and an
/// ordered list of notifying read characteristics, both known here by their
/// number only, and the size of a frame.
pub struct BTComm {
    tx_count: usize,
    rx_count: usize,
    cmd_chunk_size: usize,
}

impl View for BTComm {
    type V = BTCommView;

    closed spec fn view(&self) -> BTCommView {
        BTCommView {
            tx_count: self.tx_count as nat,
            rx_count: self.rx_count as nat,
            chunk_size: self.cmd_chunk_size as nat,
        }
    }
}

impl BTComm {
    /// A link has at least one characteristic in each direction.
    pub open spec fn wf(&self) -> bool {
        self@.tx_count > 0 && self@.rx_count > 0
    }

    /// A link over `tx_count` write and `rx_count` read characteristics.
    pub fn new(tx_count: usize, rx_count: usize, cmd_chunk_size: usize) -> (comm: BTComm)
        requires
            tx_count > 0,
            rx_count > 0,
        ensures
            comm.wf(),
            comm@ == (BTCommView {
                tx_count: tx_count as nat,
                rx_count: rx_count as nat,
                chunk_size: cmd_chunk_size as nat,
            }),
    {
        BTComm { tx_count, rx_count, cmd_chunk_size }
    }

    /// Number of write characteristics.
    pub fn tx_count(&self) -> (n: usize)
        ensures
            n == self@.tx_count,
    {
        self.tx_count
    }

    /// Number of read characteristics.
    pub fn rx_count(&self) -> (n: usize)
        ensures
            n == self@.rx_count,
    {
        self.rx_count
    }

    /// The size of a frame.
    pub fn cmd_chunk_size(&self) -> (n: usize)
        ensures
            n == self@.chunk_size,
    {
        self.cmd_chunk_size
    }

    /// The frames that carry the command `op` with payload `data`: frame `i`
    /// is written to write characteristic `i`.
    ///
    /// The command is refused as too large exactly if its packet needs more
    /// frames than the link has write characteristics.
    pub fn cmd(&self, op: u16, data: &[u8]) -> (res: Result<Vec<Vec<u8>>, Error>)
        requires
            self.wf(),
            self@.chunk_size > 0,
            data@.len() <= PKT_MAX_DATA,
        ensures
            res is Err <==> chunk_count(data@.len() + 4, self@.chunk_size) > self@.tx_count,
            res is Err <==> data@.len() + 4 > self@.chunk_size * self@.tx_count,
            res is Err ==> res == Err::<Vec<Vec<u8>>, Error>(Error::PacketTooLarge),
            res matches Ok(frames) ==> {
                &&& frames_view(frames@) == chunks(packet(op, data@), self@.chunk_size)
                &&& frames_view(frames@).flatten() == packet(op, data@)
                &&& 0 < frames@.len() <= self@.tx_count
            },
    {
        let pkt_len: usize = data.len() + PKT_HDR_SIZE;
        let fits = match self.cmd_chunk_size.checked_mul(self.tx_count) {
            Some(room) => pkt_len <= room,
            None => true,
        };
        proof {
            lemma_chunk_count(pkt_len as nat, self@.chunk_size, self@.tx_count);
            lemma_packet_unpacks(op, data@);
        }
        if !fits {
            return Err(Error::PacketTooLarge);
        }
        assert(op >> 8 <= 0xff) by (bit_vector);
        assert(op & 0xff <= 0xff) by (bit_vector);
        let mut pkt: Vec<u8> = Vec::new();
        pkt.push(pkt_len as u8);
        pkt.push((op >> 8) as u8);
        pkt.push((op & 0xff) as u8);
        append_bytes(&mut pkt, data);
        assert(pkt@ =~= seq![(data@.len() + 4) as u8, (op >> 8) as u8, (op & 0xff) as u8] + data@);
        let sum = crc(pkt.as_slice());
        pkt.push(sum);
        assert(pkt@ =~= packet(op, data@));

        let size: usize = self.cmd_chunk_size;
        let ghost want = chunks(pkt@, size as nat);
        let mut frames: Vec<Vec<u8>> = Vec::new();
        let mut pos: usize = 0;
        while pos < pkt.len()
            invariant
                size > 0,
                want == chunks(pkt@, size as nat),
                frames@.len() <= want.len(),
                pos <= pkt@.len(),
                pos == if frames@.len() * size < pkt@.len() {
                    frames@.len() * size
                } else {
                    pkt@.len() as int
                },
                frames_view(frames@) == want.take(frames@.len() as int),
            decreases pkt@.len() - pos,
        {
            let ghost k = frames@.len();
            let end: usize = if pkt.len() - pos > size {
                pos + size
            } else {
                pkt.len()
            };
            proof {
                assert((k + 1) * size == k * size + size) by (nonlinear_arith);
                lemma_chunk_count(pkt@.len(), size as nat, k);
                assert(k * size == size * k) by (nonlinear_arith);
            }
            let frame = copy_range(pkt.as_slice(), pos, end);
            assert(frame@ == chunk(pkt@, size as nat, k as int));
            frames.push(frame);
            assert(frames_view(frames@) =~= want.take(k as int + 1));
            pos = end;
        }
        proof {
            let k = frames@.len();
            lemma_chunk_count(pkt@.len(), size as nat, k);
            assert(k * size == size * k) by (nonlinear_arith);
            assert(want.take(k as int) =~= want);
            lemma_chunks_flatten(pkt@, size as nat);
            assert(size * self@.tx_count == self@.chunk_size * self@.tx_count);
        }
        Ok(frames)
    }
}

/// The response to a command: its opcode and its payload.
#[derive(Debug)]
pub struct BTCommCmdResp {
    pub op: u16,
    pub data: Vec<u8>,
}

impl View for BTCommCmdResp {
    type V = (u16, Seq<u8>);

    open spec fn view(&self) -> (u16, Seq<u8>) {
        (self.op, self.data@)
    }
}

/// A response that is being put together: the bytes received so far, the
/// read characteristic that the next frame comes from, and how many there
/// are.
pub struct RxView {
    pub buffered: Seq<u8>,
    pub index: nat,
    pub rx_count: nat,
}

/// What one more frame does to a response that is being put together.
pub enum RxStep {
    /// The response is not complete: read the next characteristic.
    More(RxView),
    /// The response is complete, or has failed.
    Done(Result<(u16, Seq<u8>), Error>),
}

/// The state before the first frame.
pub open spec fn rx_start(rx_count: nat) -> RxView {
    RxView { buffered: Seq::empty(), index: 0, rx_count }
}

/// One frame arrives from read characteristic `s.index`.
///
/// The first byte of the first frame is the length of the response. A
/// length under four, or no byte at all, is a short packet. Frames are
/// added until that length is reached; what lies beyond it is cut off and
/// the packet is unpacked. If the last characteristic has been read and the
/// length is not reached, the packet is short.
pub open spec fn rx_step(s: RxView, frame: Seq<u8>) -> RxStep {
    let acc = s.buffered + frame;
    if acc.len() == 0 || acc[0] < 4 {
        RxStep::Done(Err(Error::ShortPacket))
    } else if acc.len() >= acc[0] {
        RxStep::Done(unpack(acc.take(acc[0] as int)))
    } else if s.index + 1 >= s.rx_count {
        RxStep::Done(Err(Error::ShortPacket))
    } else {
        RxStep::More(RxView { buffered: acc, index: s.index + 1, rx_count: s.rx_count })
    }
}

/// The response that the frames `frames`, read one per characteristic in
/// order, are put together to; `None` while more frames are needed. Frames
/// after the one that completes the response are not looked at.
pub open spec fn rx_run(s: RxView, frames: Seq<Seq<u8>>) -> Option<Result<(u16, Seq<u8>), Error>>
    decreases frames.len(),
{
    if frames.len() == 0 {
        None
    } else {
        match rx_step(s, frames[0]) {
            RxStep::Done(r) => Some(r),
            RxStep::More(next) => rx_run(next, frames.drop_first()),
        }
    }
}

/// A response whose first byte declares a length under four is a short
/// packet, whatever frames follow.
pub proof fn lemma_short_response(rx_count: nat, frames: Seq<Seq<u8>>)
    requires
        frames.len() > 0,
        frames[0].len() > 0,
        frames[0][0] < 4,
    ensures
        rx_run(rx_start(rx_count), frames) == Some(
            Err::<(u16, Seq<u8>), Error>(Error::ShortPacket),
        ),
{
    assert(rx_start(rx_count).buffered + frames[0] =~= frames[0]);
}

/// After `j` frames of a packet have been read back, the rest of its frames
/// complete the response.
proof fn lemma_round_trip_from(op: u16, data: Seq<u8>, size: nat, rx_count: nat, j: nat)
    requires
        data.len() <= PKT_MAX_DATA,
        size > 0,
        chunk_count(data.len() + 4, size) <= rx_count,
        j < chunk_count(data.len() + 4, size),
    ensures
        rx_run(
            RxView { buffered: packet(op, data).take((j * size) as int), index: j, rx_count },
            chunks(packet(op, data), size).skip(j as int),
        ) == Some(Ok::<(u16, Seq<u8>), Error>((op, data))),
    decreases chunk_count(data.len() + 4, size) - j,
{
    let pkt = packet(op, data);
    let count = chunk_count(pkt.len(), size);
    let all = chunks(pkt, size);
    let s = RxView { buffered: pkt.take((j * size) as int), index: j, rx_count };
    lemma_packet_unpacks(op, data);
    lemma_chunk_count(pkt.len(), size, 0);
    assert(j * size < pkt.len()) by (nonlinear_arith)
        requires
            j + 1 <= count,
            (count - 1) * size < pkt.len(),
            size > 0,
    ;
    assert((j + 1) * size == j * size + size) by (nonlinear_arith);
    let rest = all.skip(j as int);
    assert(rest[0] == chunk(pkt, size, j as int));
    let acc = s.buffered + rest[0];
    if (j + 1) * size < pkt.len() {
        assert(acc =~= pkt.take(((j + 1) * size) as int));
        assert(acc[0] == pkt[0]);
        lemma_chunk_count(pkt.len(), size, j + 1);
        assert((j + 1) * size == size * (j + 1)) by (nonlinear_arith);
        assert(j + 1 < count);
        lemma_round_trip_from(op, data, size, rx_count, j + 1);
        assert(rest.drop_first() =~= all.skip(j as int + 1));
    } else {
        assert(acc =~= pkt);
        assert(acc.take(acc[0] as int) =~= pkt);
    }
}

/// Reading back the frames of a command recovers its opcode and payload,
/// if there are at least as many read characteristics as frames.
pub proof fn lemma_cmd_round_trip(op: u16, data: Seq<u8>, size: nat, rx_count: nat)
    requires
        data.len() <= PKT_MAX_DATA,
        size > 0,
        chunk_count(data.len() + 4, size) <= rx_count,
    ensures
        rx_run(rx_start(rx_count), chunks(packet(op, data), size)) == Some(
            Ok::<(u16, Seq<u8>), Error>((op, data)),
        ),
{
    let pkt = packet(op, data);
    lemma_packet_unpacks(op, data);
    lemma_chunk_count(pkt.len(), size, 0);
    lemma_round_trip_from(op, data, size, rx_count, 0);
    assert(0 * size == 0) by (nonlinear_arith);
    assert(pkt.take(0) =~= Seq::<u8>::empty());
    assert(chunks(pkt, size).skip(0) =~= chunks(pkt, size));
}

/// A response that is being put together.
pub struct BTCommRx {
    pkt: Vec<u8>,
    index: usize,
    rx_count: usize,
}

impl View for BTCommRx {
    type V = RxView;

    closed spec fn view(&self) -> RxView {
        RxView { buffered: self.pkt@, index: self.index as nat, rx_count: self.rx_count as nat }
    }
}

/// What `BTCommRx::feed` hands back.
pub enum BTCommRxStep {
    /// Read the next frame, from the characteristic that `index` names.
    More(BTCommRx),
    /// The response, or why there is none.
    Done(Result<BTCommCmdResp, Error>),
}

impl View for BTCommRxStep {
    type V = RxStep;

    open spec fn view(&self) -> RxStep {
        match self {
            BTCommRxStep::More(rx) => RxStep::More(rx@),
            BTCommRxStep::Done(Ok(resp)) => RxStep::Done(Ok(resp@)),
            BTCommRxStep::Done(Err(e)) => RxStep::Done(Err(*e)),
        }
    }
}

impl BTCommRx {
    /// Before the first frame nothing is buffered. Afterwards the first byte
    /// is a length of at least four that has not been reached, and a
    /// characteristic is left to read from.
    pub open spec fn wf(&self) -> bool {
        &&& self@.index < self@.rx_count
        &&& self@.index == 0 ==> self@.buffered.len() == 0
        &&& self@.index > 0 ==> {
            &&& self@.buffered.len() > 0
            &&& self@.buffered[0] >= 4
            &&& self@.buffered.len() < self@.buffered[0]
        }
    }

    /// The read characteristic that the next frame is read from.
    pub fn index(&self) -> (i: usize)
        ensures
            i == self@.index,
    {
        self.index
    }

    /// Takes the frame that read characteristic `index()` delivered.
    pub fn feed(self, frame: &[u8]) -> (step: BTCommRxStep)
        requires
            self.wf(),
        ensures
            step@ == rx_step(self@, frame@),
            step matches BTCommRxStep::More(next) ==> next.wf(),
    {
        let mut pkt = self.pkt;
        append_bytes(&mut pkt, frame);
        if pkt.len() == 0 || pkt[0] < 4 {
            return BTCommRxStep::Done(Err(Error::ShortPacket));
        }
        let pkt_len: usize = pkt[0] as usize;
        if pkt.len() >= pkt_len {
            pkt.truncate(pkt_len);
            let sum = crc(pkt.as_slice());
            if sum != 0 {
                return BTCommRxStep::Done(Err(Error::CrcMismatch));
            }
            let hi: u8 = pkt[1];
            let lo: u8 = pkt[2];
            let op: u16 = (hi as u16) << 8 | (lo as u16);
            let data = copy_range(pkt.as_slice(), 3, pkt_len - 1);
            return BTCommRxStep::Done(Ok(BTCommCmdResp { op, data }));
        }
        if self.index + 1 >= self.rx_count {
            return BTCommRxStep::Done(Err(Error::ShortPacket));
        }
        BTCommRxStep::More(BTCommRx { pkt, index: self.index + 1, rx_count: self.rx_count })
    }
}

impl BTComm {
    /// Starts putting a response together.
    pub fn resp(&self) -> (rx: BTCommRx)
        requires
            self.wf(),
        ensures
            rx.wf(),
            rx@ == rx_start(self@.rx_count),
    {
        BTCommRx { pkt: Vec::new(), index: 0, rx_count: self.rx_count }
    }

    /// The answer of a plain exchange on a link of one write and one read
    /// characteristic: the first `rx_len` bytes of the frame that came back.
    pub fn raw(&self, rx_frame: &[u8], rx_len: usize) -> (res: Result<Vec<u8>, Error>)
        requires
            self@.tx_count == 1,
            self@.rx_count == 1,
        ensures
            res is Err <==> rx_frame@.len() < rx_len,
            res is Err ==> res == Err::<Vec<u8>, Error>(Error::ShortPacket),
            res matches Ok(rx_data) ==> rx_data@ == rx_frame@.take(rx_len as int),
    {
        if rx_frame.len() < rx_len {
            return Err(Error::ShortPacket);
        }
        Ok(copy_range(rx_frame, 0, rx_len))
    }
}

/// The characteristics that a link is made of, as the 128 bits of their
/// UUIDs, and the size of a frame.
#[derive(Debug)]
pub struct BTCommLink {
    pub service: u128,
    pub tx_chars: Vec<u128>,
    pub rx_chars: Vec<u128>,
    pub cmd_chunk_size: usize,
}

impl BTCommLink {
    /// The link over these characteristics.
    pub fn comm(&self) -> (comm: BTComm)
        requires
            self.tx_chars@.len() > 0,
            self.rx_chars@.len() > 0,
        ensures
            comm.wf(),
            comm@ == (BTCommView {
                tx_count: self.tx_chars@.len(),
                rx_count: self.rx_chars@.len(),
                chunk_size: self.cmd_chunk_size as nat,
            }),
    {
        BTComm::new(self.tx_chars.len(), self.rx_chars.len(), self.cmd_chunk_size)
    }
}

} // verus!
