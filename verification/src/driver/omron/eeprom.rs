//! The device's memory: transactions, and reading and writing it page by
//! page with commands of the link.
//!
//! Reading and writing are written as steps. A step hands out the command
//! for the next page and takes the device's response to it; the caller
//! carries the command over the link in between.

use vstd::prelude::*;

use crate::btutil::Error;
use crate::driver::omron::btcomm::{append_bytes, copy_range, opcode_of, BTComm, BTCommCmdResp};

verus! {

pub const OP_START_TRANS: u16 = 0x0000;

pub const OP_END_TRANS: u16 = 0x0f00;

pub const OP_READ: u16 = 0x0100;

pub const OP_WRITE: u16 = 0x01c0;

/// The opcode of a response has the top bit set.
pub const OP_RESPONSE: u16 = 0x8000;

/// The longest page that a write command can carry.
pub const WRITE_MAX_PAGE: usize = 247;

/// One past the last address of the device's memory.
pub const ADDR_END: usize = 0x10000;

/// A command for the device: its opcode and its payload.
#[derive(Debug)]
pub struct BTCommCmd {
    pub op: u16,
    pub data: Vec<u8>,
}

impl View for BTCommCmd {
    type V = (u16, Seq<u8>);

    open spec fn view(&self) -> (u16, Seq<u8>) {
        (self.op, self.data@)
    }
}

/// High byte of an address.
pub open spec fn addr_hi(addr: u16) -> u8 {
    (addr >> 8) as u8
}

/// Low byte of an address.
pub open spec fn addr_lo(addr: u16) -> u8 {
    (addr & 0xff) as u8
}

/// The two bytes of an address give the address back.
pub proof fn lemma_addr_bytes(addr: u16)
    ensures
        opcode_of(addr_hi(addr), addr_lo(addr)) == addr,
        addr >> 8 <= 0xff,
        addr & 0xff <= 0xff,
{
    assert((((addr >> 8) as u8) as u16) << 8 | (((addr & 0xff) as u8) as u16) == addr)
        by (bit_vector);
    assert(addr >> 8 <= 0xff) by (bit_vector);
    assert(addr & 0xff <= 0xff) by (bit_vector);
}

/// The command that opens a transaction.
pub open spec fn start_trans_cmd() -> (u16, Seq<u8>) {
    (OP_START_TRANS, seq![0x00u8, 0x00u8, 0x10u8, 0x00u8])
}

/// The command that closes a transaction.
pub open spec fn end_trans_cmd() -> (u16, Seq<u8>) {
    (OP_END_TRANS, seq![0x00u8, 0x00u8, 0x00u8, 0x00u8])
}

/// A response is accepted for the opcode `op` if it carries `op` with the
/// top bit set.
pub open spec fn trans_resp(op: u16, resp: (u16, Seq<u8>)) -> Result<(), Error> {
    if resp.0 == op | OP_RESPONSE {
        Ok(())
    } else {
        Err(Error::ProtocolViolation)
    }
}

/// The command that reads the page of `page_len` bytes at `addr`.
pub open spec fn read_cmd(addr: u16, page_len: u8) -> (u16, Seq<u8>) {
    (OP_READ, seq![addr_hi(addr), addr_lo(addr), page_len, 0x00u8])
}

/// What the response to `read_cmd(addr, page_len)` holds.
///
/// The response has to carry the read opcode with the top bit set and to
/// repeat address and length. A payload that ends before the page is
/// complete stands for a page that the device has not written yet: `None`.
pub open spec fn read_page(addr: u16, page_len: u8, resp: (u16, Seq<u8>)) -> Result<
    Option<Seq<u8>>,
    Error,
> {
    let data = resp.1;
    if resp.0 != OP_READ | OP_RESPONSE || data.len() < 3 {
        Err(Error::ProtocolViolation)
    } else if opcode_of(data[0], data[1]) != addr || data[2] != page_len {
        Err(Error::ProtocolViolation)
    } else if data.len() < 3 + page_len {
        Ok(None)
    } else {
        Ok(Some(data.subrange(3, 3 + page_len)))
    }
}

/// The command that writes `page` to `addr`.
pub open spec fn write_cmd(addr: u16, page: Seq<u8>) -> (u16, Seq<u8>)
    recommends
        page.len() <= WRITE_MAX_PAGE,
{
    (OP_WRITE, seq![addr_hi(addr), addr_lo(addr), page.len() as u8] + page + seq![0x00u8])
}

/// Whether the response to a write command for `addr` accepts it: it has to
/// carry the write opcode with the top bit set and to repeat the address.
pub open spec fn write_page(addr: u16, resp: (u16, Seq<u8>)) -> Result<(), Error> {
    let data = resp.1;
    if resp.0 != OP_WRITE | OP_RESPONSE || data.len() < 2 {
        Err(Error::ProtocolViolation)
    } else if opcode_of(data[0], data[1]) != addr {
        Err(Error::ProtocolViolation)
    } else {
        Ok(())
    }
}

/// A read of the `len` bytes from `start` in pages of `block_size` bytes,
/// of which `data` has been read.
pub struct EepromReadView {
    pub start: u16,
    pub len: nat,
    pub block_size: u8,
    pub data: Seq<u8>,
}

impl EepromReadView {
    /// The address of the next page.
    pub open spec fn addr(self) -> u16 {
        (self.start + self.data.len()) as u16
    }

    /// The length of the next page: a block, or what is left of the region.
    pub open spec fn page_len(self) -> u8 {
        if self.len - self.data.len() < self.block_size {
            (self.len - self.data.len()) as u8
        } else {
            self.block_size
        }
    }

    /// The command for the next page.
    pub open spec fn cmd(self) -> (u16, Seq<u8>) {
        read_cmd(self.addr(), self.page_len())
    }
}

/// Where a read stands.
pub enum ReadStep {
    /// The next page is to be asked for.
    Page(EepromReadView),
    /// The read has ended with these bytes. The flag says whether they are
    /// the whole region; if not, the device had not written the page that
    /// follows them.
    Done(Seq<u8>, bool),
}

/// A read with `v.data` in hand goes on with the next page, or is complete.
pub open spec fn read_next(v: EepromReadView) -> ReadStep {
    if v.data.len() >= v.len {
        ReadStep::Done(v.data, true)
    } else {
        ReadStep::Page(v)
    }
}

/// The response to the command `v.cmd()` arrives.
pub open spec fn read_step(v: EepromReadView, resp: (u16, Seq<u8>)) -> Result<ReadStep, Error> {
    match read_page(v.addr(), v.page_len(), resp) {
        Err(e) => Err(e),
        Ok(None) => Ok(ReadStep::Done(v.data, false)),
        Ok(Some(page)) => Ok(read_next(EepromReadView { data: v.data + page, ..v })),
    }
}

/// Where a read that stands at `step` is after the responses `resps`, one
/// for each page that it asks for, in order. Responses that arrive after
/// the read has ended are not looked at.
pub open spec fn read_run(step: ReadStep, resps: Seq<(u16, Seq<u8>)>) -> Result<ReadStep, Error>
    decreases resps.len(),
{
    if resps.len() == 0 {
        Ok(step)
    } else {
        match step {
            ReadStep::Done(_, _) => Ok(step),
            ReadStep::Page(v) => match read_step(v, resps[0]) {
                Err(e) => Err(e),
                Ok(next) => read_run(next, resps.drop_first()),
            },
        }
    }
}

/// The response that a device gives for the page of `page_len` bytes at `addr`
/// of which it holds only the bytes `bytes`.
pub open spec fn page_resp(addr: u16, page_len: u8, bytes: Seq<u8>) -> (u16, Seq<u8>) {
    (OP_READ | OP_RESPONSE, seq![addr_hi(addr), addr_lo(addr), page_len] + bytes)
}

/// The pages `pages`, one after the other.
pub open spec fn pages_concat(pages: Seq<Seq<u8>>) -> Seq<u8> {
    pages.flatten()
}

/// A read of pages of one block each, answered page by page: if the device
/// holds the first `pages.len()` pages whole and of the page after them only
/// the bytes `part`, fewer than a block, the read ends there, hands out the
/// bytes of the whole pages as the device gave them, and says that the
/// region is not fully populated.
pub proof fn lemma_read_stops_at_short_page(
    v: EepromReadView,
    pages: Seq<Seq<u8>>,
    part: Seq<u8>,
    later: Seq<(u16, Seq<u8>)>,
)
    requires
        v.block_size > 0,
        v.start + v.len <= ADDR_END,
        v.data.len() + (pages.len() + 1) * v.block_size <= v.len,
        forall|i: int| 0 <= i < pages.len() ==> (#[trigger] pages[i]).len() == v.block_size,
        part.len() < v.block_size,
    ensures
        read_run(
            ReadStep::Page(v),
            Seq::new(
                pages.len(),
                |i: int|
                    page_resp(
                        (v.start + v.data.len() + i * v.block_size) as u16,
                        v.block_size,
                        pages[i],
                    ),
            ).push(
                page_resp(
                    (v.start + v.data.len() + pages.len() * v.block_size) as u16,
                    v.block_size,
                    part,
                ),
            ) + later,
        ) == Ok::<ReadStep, Error>(ReadStep::Done(v.data + pages_concat(pages), false)),
    decreases pages.len(),
{
    let b = v.block_size;
    let n = pages.len();
    let base = v.start + v.data.len();
    let full = Seq::new(n, |i: int| page_resp((base + i * b) as u16, b, pages[i]));
    let last = page_resp((base + n * b) as u16, b, part);
    let resps = full.push(last) + later;
    assert((n + 1) * b == n * b + b) by (nonlinear_arith);
    assert(n * b >= 0) by (nonlinear_arith)
        requires
            b > 0,
            n >= 0,
    ;
    assert(0 * b == 0) by (nonlinear_arith);
    lemma_addr_bytes(v.addr());
    assert(v.page_len() == b);
    assert(v.addr() == base);
    if n == 0 {
        assert(resps[0] == last);
        assert(last.1.len() == 3 + part.len());
        assert(last.1[0] == addr_hi(v.addr()));
        assert(last.1[1] == addr_lo(v.addr()));
        assert(last.1[2] == b);
        assert(read_page(v.addr(), v.page_len(), last) == Ok::<Option<Seq<u8>>, Error>(None));
        assert(read_step(v, resps[0]) == Ok::<ReadStep, Error>(ReadStep::Done(v.data, false)));
        assert(resps.drop_first().len() == later.len());
        assert(pages_concat(pages) =~= Seq::<u8>::empty());
        assert(v.data + pages_concat(pages) =~= v.data);
        assert(read_run(ReadStep::Done(v.data, false), resps.drop_first()) == Ok::<
            ReadStep,
            Error,
        >(ReadStep::Done(v.data, false)));
    } else {
        let first = pages[0];
        assert(resps[0] == full[0]);
        assert(full[0] == page_resp(v.addr(), b, first));
        assert(full[0].1.len() == 3 + b);
        assert(full[0].1[0] == addr_hi(v.addr()));
        assert(full[0].1[1] == addr_lo(v.addr()));
        assert(full[0].1[2] == b);
        assert(full[0].1.subrange(3, 3 + b) =~= first);
        assert(read_page(v.addr(), v.page_len(), full[0]) == Ok::<Option<Seq<u8>>, Error>(
            Some(first),
        ));
        let next = EepromReadView { data: v.data + first, ..v };
        assert(n * b >= b) by (nonlinear_arith)
            requires
                n >= 1,
                b > 0,
        ;
        assert(next.data.len() < next.len);
        assert(read_step(v, resps[0]) == Ok::<ReadStep, Error>(ReadStep::Page(next)));
        let rest = pages.drop_first();
        let next_base = next.start + next.data.len();
        assert(next_base == base + b);
        let rest_full = Seq::new(
            rest.len(),
            |i: int| page_resp((next_base + i * b) as u16, b, rest[i]),
        );
        let rest_last = page_resp((next_base + rest.len() * b) as u16, b, part);
        assert((rest.len() + 1) * b == rest.len() * b + b) by (nonlinear_arith);
        assert forall|i: int| 0 <= i < rest.len() implies rest_full[i] == full[i + 1] by {
            assert((i + 1) * b == i * b + b) by (nonlinear_arith);
        }
        assert(rest_last == last);
        assert(resps.drop_first() =~= rest_full.push(rest_last) + later);
        lemma_read_stops_at_short_page(next, rest, part, later);
        assert(pages_concat(pages) == first + pages_concat(rest));
        assert(next.data + pages_concat(rest) =~= v.data + pages_concat(pages));
    }
}

/// A read of pages of one block each, answered page by page: if the device
/// holds all pages whole, the read hands out their bytes as the device gave
/// them, in order, and says that the region is fully populated.
pub proof fn lemma_read_all_pages(
    v: EepromReadView,
    pages: Seq<Seq<u8>>,
    later: Seq<(u16, Seq<u8>)>,
)
    requires
        v.block_size > 0,
        v.start + v.len <= ADDR_END,
        pages.len() > 0,
        v.data.len() + pages.len() * v.block_size == v.len,
        forall|i: int| 0 <= i < pages.len() ==> (#[trigger] pages[i]).len() == v.block_size,
    ensures
        read_run(
            ReadStep::Page(v),
            Seq::new(
                pages.len(),
                |i: int|
                    page_resp(
                        (v.start + v.data.len() + i * v.block_size) as u16,
                        v.block_size,
                        pages[i],
                    ),
            ) + later,
        ) == Ok::<ReadStep, Error>(ReadStep::Done(v.data + pages_concat(pages), true)),
    decreases pages.len(),
{
    let b = v.block_size;
    let n = pages.len();
    let base = v.start + v.data.len();
    let full = Seq::new(n, |i: int| page_resp((base + i * b) as u16, b, pages[i]));
    let resps = full + later;
    assert(n * b >= b) by (nonlinear_arith)
        requires
            n >= 1,
            b > 0,
    ;
    assert(0 * b == 0) by (nonlinear_arith);
    lemma_addr_bytes(v.addr());
    assert(v.page_len() == b);
    assert(v.addr() == base);
    let first = pages[0];
    let rest = pages.drop_first();
    assert(resps[0] == full[0]);
    assert(full[0] == page_resp(v.addr(), b, first));
    assert(full[0].1.len() == 3 + b);
    assert(full[0].1[0] == addr_hi(v.addr()));
    assert(full[0].1[1] == addr_lo(v.addr()));
    assert(full[0].1[2] == b);
    assert(full[0].1.subrange(3, 3 + b) =~= first);
    assert(read_page(v.addr(), v.page_len(), full[0]) == Ok::<Option<Seq<u8>>, Error>(
        Some(first),
    ));
    let next = EepromReadView { data: v.data + first, ..v };
    assert(n * b == (n - 1) * b + b) by (nonlinear_arith);
    assert(pages_concat(pages) == first + pages_concat(rest));
    if n == 1 {
        assert(0 * b == 0) by (nonlinear_arith);
        assert(next.data.len() == v.len);
        assert(read_step(v, resps[0]) == Ok::<ReadStep, Error>(ReadStep::Done(next.data, true)));
        assert(rest =~= Seq::<Seq<u8>>::empty());
        assert(pages_concat(rest) =~= Seq::<u8>::empty());
        assert(next.data =~= v.data + pages_concat(pages));
        assert(read_run(ReadStep::Done(next.data, true), resps.drop_first()) == Ok::<
            ReadStep,
            Error,
        >(ReadStep::Done(next.data, true)));
    } else {
        assert((n - 1) * b >= b) by (nonlinear_arith)
            requires
                n - 1 >= 1,
                b > 0,
        ;
        assert(next.data.len() < next.len);
        assert(read_step(v, resps[0]) == Ok::<ReadStep, Error>(ReadStep::Page(next)));
        let next_base = next.start + next.data.len();
        let rest_full = Seq::new(
            rest.len(),
            |i: int| page_resp((next_base + i * b) as u16, b, rest[i]),
        );
        assert forall|i: int| 0 <= i < rest.len() implies rest_full[i] == full[i + 1] by {
            assert((i + 1) * b == i * b + b) by (nonlinear_arith);
        }
        assert(resps.drop_first() =~= rest_full + later);
        lemma_read_all_pages(next, rest, later);
        assert(next.data + pages_concat(rest) =~= v.data + pages_concat(pages));
    }
}

/// A read that waits for the response to its next page.
pub struct EepromRead {
    start: u16,
    len: usize,
    block_size: u8,
    data: Vec<u8>,
}

impl View for EepromRead {
    type V = EepromReadView;

    closed spec fn view(&self) -> EepromReadView {
        EepromReadView {
            start: self.start,
            len: self.len as nat,
            block_size: self.block_size,
            data: self.data@,
        }
    }
}

/// What starting a read, or a response to it, leads to.
pub enum EepromReadStep {
    /// Send `request()` of this read and hand its response to `response()`.
    Page(EepromRead),
    /// The bytes read, and whether they are the whole region.
    Done(Vec<u8>, bool),
}

impl View for EepromReadStep {
    type V = ReadStep;

    open spec fn view(&self) -> ReadStep {
        match self {
            EepromReadStep::Page(rd) => ReadStep::Page(rd@),
            EepromReadStep::Done(data, full) => ReadStep::Done(data@, *full),
        }
    }
}

/// The view of a `Result` of a read step.
pub open spec fn read_result_view(res: Result<EepromReadStep, Error>) -> Result<ReadStep, Error> {
    match res {
        Ok(step) => Ok(step@),
        Err(e) => Err(e),
    }
}

impl EepromRead {
    /// The region lies in the device's memory, pages are not empty, and a
    /// part of the region is still to be read.
    pub open spec fn wf(&self) -> bool {
        &&& self@.block_size > 0
        &&& self@.start + self@.len <= ADDR_END
        &&& self@.data.len() < self@.len
    }

    /// The command for the next page.
    pub fn request(&self) -> (cmd: BTCommCmd)
        requires
            self.wf(),
        ensures
            cmd@ == self@.cmd(),
    {
        let left: usize = self.len - self.data.len();
        let page_len: u8 = if left < self.block_size as usize {
            left as u8
        } else {
            self.block_size
        };
        let addr: u16 = (self.start as usize + self.data.len()) as u16;
        proof {
            lemma_addr_bytes(addr);
        }
        let mut data: Vec<u8> = Vec::new();
        data.push((addr >> 8) as u8);
        data.push((addr & 0xff) as u8);
        data.push(page_len);
        data.push(0x00);
        assert(data@ =~= self@.cmd().1);
        BTCommCmd { op: OP_READ, data }
    }

    /// Takes the response to `request()`.
    pub fn response(self, resp: &BTCommCmdResp) -> (res: Result<EepromReadStep, Error>)
        requires
            self.wf(),
        ensures
            read_result_view(res) == read_step(self@, resp@),
            res matches Ok(EepromReadStep::Page(next)) ==> next.wf(),
    {
        let left: usize = self.len - self.data.len();
        let page_len: u8 = if left < self.block_size as usize {
            left as u8
        } else {
            self.block_size
        };
        let addr: u16 = (self.start as usize + self.data.len()) as u16;
        if resp.op != OP_READ | OP_RESPONSE || resp.data.len() < 3 {
            return Err(Error::ProtocolViolation);
        }
        let hi: u8 = resp.data[0];
        let lo: u8 = resp.data[1];
        let resp_addr: u16 = (hi as u16) << 8 | (lo as u16);
        if resp_addr != addr || resp.data[2] != page_len {
            return Err(Error::ProtocolViolation);
        }
        let expected: usize = 3 + page_len as usize;
        if resp.data.len() < expected {
            return Ok(EepromReadStep::Done(self.data, false));
        }
        let mut data = self.data;
        let page = copy_range(resp.data.as_slice(), 3, expected);
        append_bytes(&mut data, page.as_slice());
        if data.len() >= self.len {
            Ok(EepromReadStep::Done(data, true))
        } else {
            Ok(
                EepromReadStep::Page(
                    EepromRead {
                        start: self.start,
                        len: self.len,
                        block_size: self.block_size,
                        data,
                    },
                ),
            )
        }
    }
}

impl BTComm {
    /// The command that opens a transaction.
    pub fn start_trans() -> (cmd: BTCommCmd)
        ensures
            cmd@ == start_trans_cmd(),
    {
        let mut data: Vec<u8> = Vec::new();
        data.push(0x00);
        data.push(0x00);
        data.push(0x10);
        data.push(0x00);
        assert(data@ =~= start_trans_cmd().1);
        BTCommCmd { op: OP_START_TRANS, data }
    }

    /// Whether `resp` answers the opening of a transaction.
    pub fn start_trans_resp(resp: &BTCommCmdResp) -> (res: Result<(), Error>)
        ensures
            res == trans_resp(OP_START_TRANS, resp@),
    {
        if resp.op != OP_START_TRANS | OP_RESPONSE {
            return Err(Error::ProtocolViolation);
        }
        Ok(())
    }

    /// The command that closes a transaction.
    pub fn end_trans() -> (cmd: BTCommCmd)
        ensures
            cmd@ == end_trans_cmd(),
    {
        let mut data: Vec<u8> = Vec::new();
        data.push(0x00);
        data.push(0x00);
        data.push(0x00);
        data.push(0x00);
        assert(data@ =~= end_trans_cmd().1);
        BTCommCmd { op: OP_END_TRANS, data }
    }

    /// Whether `resp` answers the closing of a transaction.
    pub fn end_trans_resp(resp: &BTCommCmdResp) -> (res: Result<(), Error>)
        ensures
            res == trans_resp(OP_END_TRANS, resp@),
    {
        if resp.op != OP_END_TRANS | OP_RESPONSE {
            return Err(Error::ProtocolViolation);
        }
        Ok(())
    }

    /// Starts reading the `len` bytes at `start` in pages of `block_size`
    /// bytes. A region of no bytes is read at once.
    pub fn read_eeprom(start: u16, len: usize, block_size: u8) -> (step: EepromReadStep)
        requires
            block_size > 0,
            start + len <= ADDR_END,
        ensures
            step@ == read_next(
                EepromReadView { start, len: len as nat, block_size, data: Seq::empty() },
            ),
            step matches EepromReadStep::Page(rd) ==> rd.wf(),
    {
        let data: Vec<u8> = Vec::new();
        if len == 0 {
            EepromReadStep::Done(data, true)
        } else {
            EepromReadStep::Page(EepromRead { start, len, block_size, data })
        }
    }
}

/// A write of `data` to `start` in pages of `block_size` bytes, of which
/// the first `done` bytes have been written.
pub struct EepromWriteView {
    pub start: u16,
    pub data: Seq<u8>,
    pub block_size: u8,
    pub done: nat,
}

impl EepromWriteView {
    /// The address of the next page.
    pub open spec fn addr(self) -> u16 {
        (self.start + self.done) as u16
    }

    /// The length of the next page: a block, or what is left of the data.
    pub open spec fn page_len(self) -> u8 {
        if self.data.len() - self.done < self.block_size {
            (self.data.len() - self.done) as u8
        } else {
            self.block_size
        }
    }

    /// The bytes of the next page.
    pub open spec fn page(self) -> Seq<u8> {
        self.data.subrange(self.done as int, self.done + self.page_len())
    }

    /// The command for the next page.
    pub open spec fn cmd(self) -> (u16, Seq<u8>) {
        write_cmd(self.addr(), self.page())
    }
}

/// Where a write stands.
pub enum WriteStep {
    /// The next page is to be sent.
    Page(EepromWriteView),
    /// All pages have been written.
    Done,
}

/// A write with `v.done` bytes written goes on with the next page, or is
/// complete.
pub open spec fn write_next(v: EepromWriteView) -> WriteStep {
    if v.done >= v.data.len() {
        WriteStep::Done
    } else {
        WriteStep::Page(v)
    }
}

/// The response to the command `v.cmd()` arrives.
pub open spec fn write_step(v: EepromWriteView, resp: (u16, Seq<u8>)) -> Result<WriteStep, Error> {
    match write_page(v.addr(), resp) {
        Err(e) => Err(e),
        Ok(()) => Ok(write_next(EepromWriteView { done: v.done + v.page_len() as nat, ..v })),
    }
}

/// A write that waits for the response to its next page.
pub struct EepromWrite {
    start: u16,
    data: Vec<u8>,
    block_size: u8,
    done: usize,
}

impl View for EepromWrite {
    type V = EepromWriteView;

    closed spec fn view(&self) -> EepromWriteView {
        EepromWriteView {
            start: self.start,
            data: self.data@,
            block_size: self.block_size,
            done: self.done as nat,
        }
    }
}

/// What starting a write, or a response to it, leads to.
pub enum EepromWriteStep {
    /// Send `request()` of this write and hand its response to `response()`.
    Page(EepromWrite),
    /// All pages have been written.
    Done,
}

impl View for EepromWriteStep {
    type V = WriteStep;

    open spec fn view(&self) -> WriteStep {
        match self {
            EepromWriteStep::Page(wr) => WriteStep::Page(wr@),
            EepromWriteStep::Done => WriteStep::Done,
        }
    }
}

/// The view of a `Result` of a write step.
pub open spec fn write_result_view(res: Result<EepromWriteStep, Error>) -> Result<
    WriteStep,
    Error,
> {
    match res {
        Ok(step) => Ok(step@),
        Err(e) => Err(e),
    }
}

/// Whether a page of a write of `len` bytes in pages of `block_size` bytes
/// fits into a write command.
pub open spec fn write_fits(len: nat, block_size: u8) -> bool {
    block_size <= WRITE_MAX_PAGE || len <= WRITE_MAX_PAGE
}

impl EepromWrite {
    /// The region lies in the device's memory, pages are not empty and fit
    /// into a command, and a part of the data is still to be written.
    pub open spec fn wf(&self) -> bool {
        &&& self@.block_size > 0
        &&& self@.start + self@.data.len() <= ADDR_END
        &&& self@.done < self@.data.len()
        &&& write_fits(self@.data.len(), self@.block_size)
    }

    /// The command for the next page.
    pub fn request(&self) -> (cmd: BTCommCmd)
        requires
            self.wf(),
        ensures
            cmd@ == self@.cmd(),
            cmd.data@.len() <= WRITE_MAX_PAGE + 4,
    {
        let left: usize = self.data.len() - self.done;
        let page_len: u8 = if left < self.block_size as usize {
            left as u8
        } else {
            self.block_size
        };
        let addr: u16 = (self.start as usize + self.done) as u16;
        proof {
            lemma_addr_bytes(addr);
        }
        let mut data: Vec<u8> = Vec::new();
        data.push((addr >> 8) as u8);
        data.push((addr & 0xff) as u8);
        data.push(page_len);
        let page = copy_range(self.data.as_slice(), self.done, self.done + page_len as usize);
        append_bytes(&mut data, page.as_slice());
        data.push(0x00);
        assert(data@ =~= self@.cmd().1);
        BTCommCmd { op: OP_WRITE, data }
    }

    /// Takes the response to `request()`.
    pub fn response(self, resp: &BTCommCmdResp) -> (res: Result<EepromWriteStep, Error>)
        requires
            self.wf(),
        ensures
            write_result_view(res) == write_step(self@, resp@),
            res matches Ok(EepromWriteStep::Page(next)) ==> next.wf(),
    {
        let left: usize = self.data.len() - self.done;
        let page_len: u8 = if left < self.block_size as usize {
            left as u8
        } else {
            self.block_size
        };
        let addr: u16 = (self.start as usize + self.done) as u16;
        if resp.op != OP_WRITE | OP_RESPONSE || resp.data.len() < 2 {
            return Err(Error::ProtocolViolation);
        }
        let hi: u8 = resp.data[0];
        let lo: u8 = resp.data[1];
        let resp_addr: u16 = (hi as u16) << 8 | (lo as u16);
        if resp_addr != addr {
            return Err(Error::ProtocolViolation);
        }
        let done: usize = self.done + page_len as usize;
        if done >= self.data.len() {
            Ok(EepromWriteStep::Done)
        } else {
            Ok(
                EepromWriteStep::Page(
                    EepromWrite {
                        start: self.start,
                        data: self.data,
                        block_size: self.block_size,
                        done,
                    },
                ),
            )
        }
    }
}

impl BTComm {
    /// Starts writing `data` to `start` in pages of `block_size` bytes. No
    /// data is written at once.
    pub fn write_eeprom(start: u16, data: Vec<u8>, block_size: u8) -> (step: EepromWriteStep)
        requires
            block_size > 0,
            start + data@.len() <= ADDR_END,
            write_fits(data@.len(), block_size),
        ensures
            step@ == write_next(EepromWriteView { start, data: data@, block_size, done: 0 }),
            step matches EepromWriteStep::Page(wr) ==> wr.wf(),
    {
        if data.len() == 0 {
            EepromWriteStep::Done
        } else {
            EepromWriteStep::Page(EepromWrite { start, data, block_size, done: 0 })
        }
    }
}

} // verus!
