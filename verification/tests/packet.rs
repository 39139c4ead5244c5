use omron_link::btutil::Error;
use omron_link::driver::omron::btcomm::{crc, BTComm, BTCommRxStep};

fn feed_all(comm: &BTComm, frames: &[Vec<u8>]) -> Option<Result<(u16, Vec<u8>), Error>> {
    let mut rx = comm.resp();
    for frame in frames {
        match rx.feed(frame) {
            BTCommRxStep::More(next) => rx = next,
            BTCommRxStep::Done(Ok(resp)) => return Some(Ok((resp.op, resp.data))),
            BTCommRxStep::Done(Err(e)) => return Some(Err(e)),
        }
    }
    None
}

#[test]
fn crc_of_nothing_is_zero() {
    assert_eq!(crc(&[]), 0);
}

#[test]
fn crc_is_xor_of_bytes() {
    assert_eq!(crc(&[0x08, 0x01, 0x00, 0x00, 0x3c, 0x10, 0x00]), 0x25);
    assert_eq!(crc(&[0xff, 0x0f, 0xf0]), 0x00);
}

#[test]
fn crc_of_sealed_bytes_is_zero() {
    let mut bytes = vec![0x12, 0x34, 0x56, 0x78, 0x9a];
    let sum = crc(&bytes);
    bytes.push(sum);
    assert_eq!(crc(&bytes), 0);
}

#[test]
fn cmd_builds_packet() {
    let comm = BTComm::new(1, 1, 0xff);
    let frames = comm.cmd(0x0100, &[0x00, 0x3c, 0x10, 0x00]).unwrap();
    assert_eq!(frames, vec![vec![0x08, 0x01, 0x00, 0x00, 0x3c, 0x10, 0x00, 0x25]]);
}

#[test]
fn cmd_splits_packet_over_characteristics() {
    let comm = BTComm::new(4, 4, 0x10);
    let data: Vec<u8> = (0..36).collect();
    let frames = comm.cmd(0x01c0, &data).unwrap();
    assert_eq!(frames.len(), 3);
    assert_eq!(frames[0].len(), 16);
    assert_eq!(frames[1].len(), 16);
    assert_eq!(frames[2].len(), 8);
    let mut packet = vec![40, 0x01, 0xc0];
    packet.extend_from_slice(&data);
    packet.push(crc(&packet));
    assert_eq!(frames.concat(), packet);
}

#[test]
fn cmd_too_large_iff_more_chunks_than_characteristics() {
    let comm = BTComm::new(2, 2, 0x10);
    assert!(comm.cmd(0x0000, &[0; 28]).is_ok());
    assert_eq!(comm.cmd(0x0000, &[0; 29]), Err(Error::PacketTooLarge));
    let single = BTComm::new(1, 1, 8);
    assert!(single.cmd(0x0000, &[0; 4]).is_ok());
    assert_eq!(single.cmd(0x0000, &[0; 5]), Err(Error::PacketTooLarge));
}

#[test]
fn cmd_round_trip_through_echo() {
    let comm = BTComm::new(4, 4, 0x10);
    let data: Vec<u8> = (100..150).collect();
    let frames = comm.cmd(0x8f00, &data).unwrap();
    assert_eq!(feed_all(&comm, &frames), Some(Ok((0x8f00, data))));
}

#[test]
fn response_with_short_declared_length() {
    let comm = BTComm::new(4, 4, 0x10);
    let frames = vec![vec![3, 0, 0], vec![1, 2, 3], vec![4]];
    assert_eq!(feed_all(&comm, &frames), Some(Err(Error::ShortPacket)));
    assert_eq!(feed_all(&comm, &[vec![]]), Some(Err(Error::ShortPacket)));
}

#[test]
fn response_runs_out_of_characteristics() {
    let comm = BTComm::new(2, 2, 0x10);
    let frames = vec![vec![9, 0x81, 0x00, 1], vec![2, 3]];
    assert_eq!(feed_all(&comm, &frames), Some(Err(Error::ShortPacket)));
    assert_eq!(feed_all(&comm, &frames[..1]), None);
}

#[test]
fn response_is_cut_at_declared_length() {
    let comm = BTComm::new(1, 1, 0xff);
    let mut pkt = vec![6, 0x81, 0x00, 0xaa, 0xbb];
    pkt.push(crc(&pkt));
    pkt.extend_from_slice(&[0, 0, 0, 0]);
    assert_eq!(feed_all(&comm, &[pkt]), Some(Ok((0x8100, vec![0xaa, 0xbb]))));
}

#[test]
fn response_with_wrong_checksum() {
    let comm = BTComm::new(1, 1, 0xff);
    let mut pkt = vec![6, 0x81, 0x00, 0xaa, 0xbb];
    pkt.push(crc(&pkt) ^ 0x01);
    assert_eq!(feed_all(&comm, &[pkt]), Some(Err(Error::CrcMismatch)));
}

#[test]
fn raw_takes_the_first_bytes() {
    let comm = BTComm::new(1, 1, 0x10);
    assert_eq!(comm.raw(&[0x82, 0x00, 0x07], 2), Ok(vec![0x82, 0x00]));
    assert_eq!(comm.raw(&[0x82], 2), Err(Error::ShortPacket));
}
