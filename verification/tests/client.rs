use std::sync::{Arc, Mutex};

use esp_remotecontrolled_led_matrix_client::client::{contiguous_check, Client};
use esp_remotecontrolled_led_matrix_client::error::{poison_err, ClientError};
use esp_remotecontrolled_led_matrix_client::transport::BufferTransport;

fn connected(width: u8, height: u8) -> Client<BufferTransport> {
    let transport = BufferTransport::new(vec![1, width, height]);
    Client::connect(transport).unwrap()
}

#[test]
fn handshake_reports_dimensions() {
    let client = connected(8, 8);
    assert_eq!(client.width(), 8);
    assert_eq!(client.height(), 8);
    assert_eq!(client.total_pixels(), 64);
}

#[test]
fn total_pixels_is_exact_product() {
    // The largest matrix: 255 * 255 = 65025 must not overflow.
    let client = connected(255, 255);
    assert_eq!(client.total_pixels(), 65025);
    let client = connected(255, 1);
    assert_eq!(client.total_pixels(), 255);
    let client = connected(1, 1);
    assert_eq!(client.total_pixels(), 1);
    let client = connected(16, 32);
    assert_eq!(client.total_pixels(), 512);
}

#[test]
fn handshake_rejects_wrong_version() {
    let transport = BufferTransport::new(vec![2, 8, 8]);
    match Client::connect(transport) {
        Err(e) => assert_eq!(e, ClientError::ProtocolMismatch),
        Ok(_) => panic!("expected a protocol mismatch"),
    }
}

#[test]
fn handshake_rejects_zero_width() {
    // The matrix has 1 to 255 cells along each axis: a handshake
    // reporting 0 must not yield a handle.
    let transport = BufferTransport::new(vec![1, 0, 8]);
    match Client::connect(transport) {
        Err(e) => assert_eq!(e, ClientError::ProtocolMismatch),
        Ok(_) => panic!("expected a protocol mismatch"),
    }
}

#[test]
fn handshake_rejects_zero_height() {
    let transport = BufferTransport::new(vec![1, 8, 0]);
    match Client::connect(transport) {
        Err(e) => assert_eq!(e, ClientError::ProtocolMismatch),
        Ok(_) => panic!("expected a protocol mismatch"),
    }
}

#[test]
fn handshake_fails_on_short_input() {
    let transport = BufferTransport::new(vec![1, 8]);
    match Client::connect(transport) {
        Err(e) => assert_eq!(e, ClientError::IoError),
        Ok(_) => panic!("expected an io error"),
    }
}

#[test]
fn fill_then_flush_puts_exact_bytes_on_wire() {
    // The scenario: an 8 by 8 matrix, fill with blue, then flush.
    let mut client = connected(8, 8);
    client.fill(0, 0, 255).unwrap();
    assert_eq!(client.transport.wire_bytes().len(), 0);
    client.flush().unwrap();
    assert_eq!(client.transport.wire_bytes(), &vec![1, 0, 0, 255]);
}

#[test]
fn pixel_then_flush_puts_exact_bytes_on_wire() {
    let mut client = connected(8, 8);
    client.pixel(3, 4, 255, 0, 0).unwrap();
    client.flush().unwrap();
    assert_eq!(client.transport.wire_bytes(), &vec![2, 3, 4, 255, 0, 0]);
}

#[test]
fn pixel_accepts_out_of_range_coordinates() {
    // No bounds check: the remote device ignores what lies outside.
    let mut client = connected(8, 8);
    client.pixel(200, 250, 1, 2, 3).unwrap();
    assert_eq!(client.transport.written_bytes(), vec![2, 200, 250, 1, 2, 3]);
}

#[test]
fn rectangle_is_sent_unchecked() {
    let mut client = connected(8, 8);
    client.rectangle(6, 6, 90, 90, 1, 2, 3).unwrap();
    assert_eq!(client.transport.written_bytes(), vec![3, 6, 6, 90, 90, 1, 2, 3]);
}

#[test]
fn contiguous_sends_header_then_colors() {
    let mut client = connected(8, 8);
    let colors: Vec<u8> = (0..12).collect();
    client.contiguous(1, 2, 2, 2, &colors).unwrap();
    let mut expected = vec![4, 1, 2, 2, 2];
    expected.extend_from_slice(&colors);
    assert_eq!(client.transport.written_bytes(), expected);
}

#[test]
fn contiguous_rejects_area_past_right_edge() {
    let mut client = connected(8, 8);
    // x + width = 7 + 2 > 8.
    let colors = vec![0; 6];
    assert_eq!(client.contiguous(7, 0, 2, 1, &colors), Err(ClientError::AreaTooLarge));
    assert_eq!(client.transport.written_bytes(), Vec::<u8>::new());
}

#[test]
fn contiguous_rejects_area_past_bottom_edge() {
    let mut client = connected(8, 8);
    // y + height = 8 + 1 > 8.
    let colors = vec![0; 3];
    assert_eq!(client.contiguous(0, 8, 1, 1, &colors), Err(ClientError::AreaTooLarge));
}

#[test]
fn contiguous_rejects_overflowing_coordinates() {
    let mut client = connected(255, 255);
    // 200 + 100 overflows a byte's range: out of bounds by definition.
    let colors = vec![0; 300];
    assert_eq!(client.contiguous(200, 0, 100, 1, &colors), Err(ClientError::AreaTooLarge));
    assert_eq!(client.contiguous(0, 250, 1, 6, &vec![0; 18]), Err(ClientError::AreaTooLarge));
    // The exact boundary still fits: 155 + 100 = 255.
    assert!(client.contiguous(155, 0, 100, 1, &colors).is_ok());
}

#[test]
fn contiguous_rejects_wrong_color_length() {
    let mut client = connected(8, 8);
    assert_eq!(client.contiguous(0, 0, 2, 2, &vec![0; 11]), Err(ClientError::WrongColorLength));
    assert_eq!(client.contiguous(0, 0, 2, 2, &vec![0; 13]), Err(ClientError::WrongColorLength));
    assert_eq!(client.transport.written_bytes(), Vec::<u8>::new());
}

#[test]
fn contiguous_zero_area_needs_empty_colors() {
    let mut client = connected(8, 8);
    // Width or height zero: the expected payload length is zero.
    assert_eq!(client.contiguous(0, 0, 0, 2, &vec![0; 3]), Err(ClientError::WrongColorLength));
    assert_eq!(client.contiguous(0, 0, 2, 0, &vec![0; 3]), Err(ClientError::WrongColorLength));
    assert!(client.contiguous(0, 0, 0, 2, &[]).is_ok());
    assert!(client.contiguous(0, 0, 2, 0, &[]).is_ok());
    assert_eq!(client.transport.written_bytes(), vec![4, 0, 0, 0, 2, 4, 0, 0, 2, 0]);
}

#[test]
fn contiguous_check_matches_client_behavior() {
    assert!(contiguous_check(8, 8, 2, 2, 2, 2, 12).is_ok());
    assert_eq!(contiguous_check(8, 8, 7, 0, 2, 1, 6), Err(ClientError::AreaTooLarge));
    assert_eq!(contiguous_check(8, 8, 0, 0, 2, 2, 11), Err(ClientError::WrongColorLength));
    // The area check comes first.
    assert_eq!(contiguous_check(8, 8, 7, 0, 2, 1, 99), Err(ClientError::AreaTooLarge));
}

#[test]
fn sequential_commands_keep_issue_order() {
    let mut client = connected(8, 8);
    client.pixel(0, 0, 1, 1, 1).unwrap();
    client.fill(2, 2, 2).unwrap();
    client.pixel(1, 1, 3, 3, 3).unwrap();
    assert_eq!(
        client.transport.written_bytes(),
        vec![2, 0, 0, 1, 1, 1, 1, 2, 2, 2, 2, 1, 1, 3, 3, 3]
    );
}

#[test]
fn pixel_frames_do_not_tear() {
    // Many callers sharing one handle each append one whole 6-byte frame;
    // the buffer must parse back into complete frames, never torn ones.
    let mut client = connected(8, 8);
    let n: u8 = 25;
    for i in 0..n {
        client.pixel(i, i, i, 0, 0).unwrap();
    }
    client.flush().unwrap();
    let wire = client.transport.wire_bytes().clone();
    assert_eq!(wire.len(), 6 * n as usize);
    for i in 0..n {
        let frame = &wire[6 * i as usize..6 * (i + 1) as usize];
        assert_eq!(frame, &[2, i, i, i, 0, 0]);
    }
}

#[test]
fn concurrent_callers_produce_whole_frames() {
    // N concurrent callers share one handle behind a lock, each issuing
    // one pixel command; the wire must carry N complete 6-byte frames in
    // some order, never a torn one.
    let client = Arc::new(Mutex::new(connected(8, 8)));
    let runtime = tokio::runtime::Builder::new_multi_thread()
        .worker_threads(4)
        .build()
        .unwrap();
    let n: u8 = 16;
    let mut handles = Vec::new();
    for i in 0..n {
        let shared = Arc::clone(&client);
        handles.push(runtime.spawn(async move {
            shared.lock().unwrap().pixel(i, i, i, i, i).unwrap();
        }));
    }
    for handle in handles {
        runtime.block_on(handle).unwrap();
    }
    let written = client.lock().unwrap().transport.written_bytes();
    assert_eq!(written.len(), 6 * n as usize);
    let mut seen = [false; 16];
    for frame in written.chunks(6) {
        let i = frame[1];
        assert_eq!(frame, &[2, i, i, i, i, i]);
        assert!(!seen[i as usize]);
        seen[i as usize] = true;
    }
    assert!(seen.iter().all(|&s| s));
}

#[test]
fn flush_moves_every_buffered_byte() {
    let mut client = connected(8, 8);
    client.fill(1, 2, 3).unwrap();
    client.pixel(0, 1, 2, 3, 4).unwrap();
    assert_eq!(client.transport.wire_bytes().len(), 0);
    client.flush().unwrap();
    assert_eq!(client.transport.wire_bytes(), &vec![1, 1, 2, 3, 2, 0, 1, 2, 3, 4]);
    assert_eq!(client.transport.written_bytes(), vec![1, 1, 2, 3, 2, 0, 1, 2, 3, 4]);
}

#[test]
fn poison_err_is_an_io_error() {
    assert_eq!(poison_err("a panicked holder"), ClientError::IoError);
}
