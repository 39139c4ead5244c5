use omron_link::btutil::Error;
use omron_link::driver::omron::btcomm::{BTComm, BTCommCmdResp};
use omron_link::driver::omron::eeprom::{BTCommCmd, EepromReadStep, EepromWriteStep};

fn read_resp(addr: u16, len: u8, bytes: &[u8]) -> BTCommCmdResp {
    let mut data = vec![(addr >> 8) as u8, (addr & 0xff) as u8, len];
    data.extend_from_slice(bytes);
    BTCommCmdResp { op: 0x8100, data }
}

fn write_resp(addr: u16) -> BTCommCmdResp {
    BTCommCmdResp { op: 0x81c0, data: vec![(addr >> 8) as u8, (addr & 0xff) as u8] }
}

fn page(seed: u8, len: usize) -> Vec<u8> {
    (0..len).map(|i| seed.wrapping_add(i as u8)).collect()
}

fn run_read(
    start: u16,
    len: usize,
    block_size: u8,
    script: &[BTCommCmdResp],
) -> (Vec<BTCommCmd>, Option<Result<(Vec<u8>, bool), Error>>) {
    let mut asked = Vec::new();
    let mut step = BTComm::read_eeprom(start, len, block_size);
    let mut next = 0;
    loop {
        match step {
            EepromReadStep::Done(data, full) => return (asked, Some(Ok((data, full)))),
            EepromReadStep::Page(rd) => {
                asked.push(rd.request());
                if next == script.len() {
                    return (asked, None);
                }
                match rd.response(&script[next]) {
                    Ok(s) => step = s,
                    Err(e) => return (asked, Some(Err(e))),
                }
                next += 1;
            }
        }
    }
}

fn run_write(
    start: u16,
    data: Vec<u8>,
    block_size: u8,
    script: &[BTCommCmdResp],
) -> (Vec<BTCommCmd>, Option<Result<(), Error>>) {
    let mut asked = Vec::new();
    let mut step = BTComm::write_eeprom(start, data, block_size);
    let mut next = 0;
    loop {
        match step {
            EepromWriteStep::Done => return (asked, Some(Ok(()))),
            EepromWriteStep::Page(wr) => {
                asked.push(wr.request());
                if next == script.len() {
                    return (asked, None);
                }
                match wr.response(&script[next]) {
                    Ok(s) => step = s,
                    Err(e) => return (asked, Some(Err(e))),
                }
                next += 1;
            }
        }
    }
}

#[test]
fn start_trans_command_and_response() {
    let cmd = BTComm::start_trans();
    assert_eq!(cmd.op, 0x0000);
    assert_eq!(cmd.data, vec![0x00, 0x00, 0x10, 0x00]);
    assert_eq!(BTComm::start_trans_resp(&BTCommCmdResp { op: 0x8000, data: vec![] }), Ok(()));
    assert_eq!(
        BTComm::start_trans_resp(&BTCommCmdResp { op: 0x8f00, data: vec![] }),
        Err(Error::ProtocolViolation)
    );
}

#[test]
fn end_trans_command_and_response() {
    let cmd = BTComm::end_trans();
    assert_eq!(cmd.op, 0x0f00);
    assert_eq!(cmd.data, vec![0x00, 0x00, 0x00, 0x00]);
    assert_eq!(BTComm::end_trans_resp(&BTCommCmdResp { op: 0x8f00, data: vec![] }), Ok(()));
    assert_eq!(
        BTComm::end_trans_resp(&BTCommCmdResp { op: 0x8000, data: vec![] }),
        Err(Error::ProtocolViolation)
    );
}

#[test]
fn read_of_nothing_asks_nothing() {
    let (asked, res) = run_read(0x0100, 0, 16, &[]);
    assert!(asked.is_empty());
    assert_eq!(res, Some(Ok((vec![], true))));
}

#[test]
fn read_walks_pages_and_addresses() {
    let script = vec![
        read_resp(0x02c0, 16, &page(1, 16)),
        read_resp(0x02d0, 16, &page(2, 16)),
        read_resp(0x02e0, 8, &page(3, 8)),
    ];
    let (asked, res) = run_read(0x02c0, 40, 16, &script);
    assert_eq!(asked.len(), 3);
    assert_eq!((asked[0].op, asked[0].data.clone()), (0x0100, vec![0x02, 0xc0, 16, 0x00]));
    assert_eq!((asked[1].op, asked[1].data.clone()), (0x0100, vec![0x02, 0xd0, 16, 0x00]));
    assert_eq!((asked[2].op, asked[2].data.clone()), (0x0100, vec![0x02, 0xe0, 8, 0x00]));
    let mut all = page(1, 16);
    all.extend(page(2, 16));
    all.extend(page(3, 8));
    assert_eq!(res, Some(Ok((all, true))));
}

#[test]
fn read_with_short_page_three_of_five() {
    let script = vec![
        read_resp(0x0100, 16, &page(10, 16)),
        read_resp(0x0110, 16, &page(20, 16)),
        read_resp(0x0120, 16, &page(30, 16)),
        read_resp(0x0130, 16, &page(40, 7)),
        read_resp(0x0140, 16, &page(50, 16)),
    ];
    let (asked, res) = run_read(0x0100, 80, 16, &script);
    assert_eq!(asked.len(), 4);
    let mut got = page(10, 16);
    got.extend(page(20, 16));
    got.extend(page(30, 16));
    assert_eq!(res, Some(Ok((got, false))));
}

#[test]
fn read_of_single_unwritten_page() {
    let (_, res) = run_read(0x0098, 16, 16, &[read_resp(0x0098, 16, &[])]);
    assert_eq!(res, Some(Ok((vec![], false))));
}

#[test]
fn read_ignores_bytes_beyond_the_page() {
    let mut bytes = page(7, 16);
    bytes.extend_from_slice(&[0xee, 0xee]);
    let (_, res) = run_read(0x0098, 16, 16, &[read_resp(0x0098, 16, &bytes)]);
    assert_eq!(res, Some(Ok((page(7, 16), true))));
}

#[test]
fn read_rejects_wrong_opcode() {
    let mut resp = read_resp(0x0098, 16, &page(0, 16));
    resp.op = 0x81c0;
    let (_, res) = run_read(0x0098, 16, 16, &[resp]);
    assert_eq!(res, Some(Err(Error::ProtocolViolation)));
}

#[test]
fn read_rejects_wrong_address_or_length() {
    let (_, res) = run_read(0x0098, 16, 16, &[read_resp(0x0099, 16, &page(0, 16))]);
    assert_eq!(res, Some(Err(Error::ProtocolViolation)));
    let (_, res) = run_read(0x0098, 16, 16, &[read_resp(0x0098, 15, &page(0, 16))]);
    assert_eq!(res, Some(Err(Error::ProtocolViolation)));
    let short = BTCommCmdResp { op: 0x8100, data: vec![0x00, 0x98] };
    let (_, res) = run_read(0x0098, 16, 16, &[short]);
    assert_eq!(res, Some(Err(Error::ProtocolViolation)));
}

#[test]
fn read_up_to_the_end_of_memory() {
    let (asked, res) = run_read(0xfff0, 16, 16, &[read_resp(0xfff0, 16, &page(9, 16))]);
    assert_eq!(asked[0].data, vec![0xff, 0xf0, 16, 0x00]);
    assert_eq!(res, Some(Ok((page(9, 16), true))));
}

#[test]
fn write_of_nothing_asks_nothing() {
    let (asked, res) = run_write(0x0080, vec![], 16, &[]);
    assert!(asked.is_empty());
    assert_eq!(res, Some(Ok(())));
}

#[test]
fn write_walks_pages_and_addresses() {
    let data = page(1, 20);
    let script = vec![write_resp(0x0248), write_resp(0x0250), write_resp(0x0258)];
    let (asked, res) = run_write(0x0248, data.clone(), 8, &script);
    assert_eq!(res, Some(Ok(())));
    assert_eq!(asked.len(), 3);
    let mut first = vec![0x02, 0x48, 8];
    first.extend_from_slice(&data[0..8]);
    first.push(0x00);
    assert_eq!((asked[0].op, asked[0].data.clone()), (0x01c0, first));
    let mut last = vec![0x02, 0x58, 4];
    last.extend_from_slice(&data[16..20]);
    last.push(0x00);
    assert_eq!((asked[2].op, asked[2].data.clone()), (0x01c0, last));
}

#[test]
fn write_rejects_wrong_echo() {
    let (_, res) = run_write(0x0080, page(0, 16), 16, &[write_resp(0x0081)]);
    assert_eq!(res, Some(Err(Error::ProtocolViolation)));
    let wrong_op = BTCommCmdResp { op: 0x8100, data: vec![0x00, 0x80] };
    let (_, res) = run_write(0x0080, page(0, 16), 16, &[wrong_op]);
    assert_eq!(res, Some(Err(Error::ProtocolViolation)));
    let short = BTCommCmdResp { op: 0x81c0, data: vec![0x00] };
    let (_, res) = run_write(0x0080, page(0, 16), 16, &[short]);
    assert_eq!(res, Some(Err(Error::ProtocolViolation)));
}

#[test]
fn write_command_fits_a_packet() {
    let comm = BTComm::new(1, 1, 0xff);
    let (asked, _) = run_write(0x0000, page(0, 247), 255, &[]);
    assert_eq!(asked[0].data.len(), 251);
    assert!(comm.cmd(asked[0].op, &asked[0].data).is_ok());
}
