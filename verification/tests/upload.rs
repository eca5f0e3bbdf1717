use mcumgr_smp::application_management::ImageWriter;
use mcumgr_smp::smp::{Group, OpCode};

fn chunk_of(image: &[u8], offset: usize, chunk_size: usize) -> &[u8] {
    &image[offset..image.len().min(offset + chunk_size)]
}

#[test]
fn upload_cursor_reaches_image_length() {
    // A device that always acknowledges offset + chunk size drives the
    // cursor to exactly the image length, with no gaps or overlaps.
    let image: Vec<u8> = (0..1000).map(|i| (i % 251) as u8).collect();
    let mut writer = ImageWriter::new(Some(1), image.len(), None, false);

    let chunk_size = 128;
    let mut device_offset = 0usize;
    let mut rounds = 0;
    while device_offset < image.len() {
        let chunk = chunk_of(&image, writer.offset, chunk_size);
        let frame = writer.write_chunk(chunk);
        // The chunk starts exactly where the device expects it.
        assert_eq!(frame.data.off, device_offset);
        // Simulated device: accepts the whole chunk.
        device_offset = frame.data.off + frame.data.data.len();
        writer.offset = device_offset;
        rounds += 1;
    }
    assert_eq!(device_offset, 1000);
    assert_eq!(rounds, 8);
}

#[test]
fn upload_cursor_follows_retransmit_request() {
    // A device that reports a smaller offset than expected makes the next
    // chunk start at the device-reported offset, not past the bytes just
    // sent.
    let image: Vec<u8> = (0..600).map(|i| (i % 83) as u8).collect();
    let mut writer = ImageWriter::new(None, image.len(), None, false);

    let first = writer.write_chunk(chunk_of(&image, 0, 512));
    assert_eq!(first.data.off, 0);
    assert_eq!(writer.offset, 512);

    // The device only kept 100 bytes.
    writer.offset = 100;
    let second = writer.write_chunk(chunk_of(&image, 100, 512));
    assert_eq!(second.data.off, 100);
    assert_eq!(second.data.data, &image[100..600]);
    // A re-sent middle chunk carries no metadata.
    assert!(second.data.len.is_none());
    assert!(second.data.image.is_none());
    assert!(second.data.sha.is_none());
    assert!(second.data.upgrade.is_none());
}

#[test]
fn upload_metadata_only_on_first_chunk() {
    let image = vec![0x5Au8; 300];
    let hash = vec![0xDEu8, 0xAD, 0xBE, 0xEF];
    let mut writer = ImageWriter::new(Some(2), image.len(), Some(hash.clone()), true);

    let first = writer.write_chunk(&image[..128]);
    assert_eq!(first.data.off, 0);
    assert_eq!(first.data.len, Some(300));
    assert_eq!(first.data.image, Some(2));
    assert_eq!(first.data.sha.as_deref(), Some(&hash[..]));
    assert_eq!(first.data.upgrade, Some(true));

    writer.offset = 128;
    let second = writer.write_chunk(&image[128..256]);
    assert_eq!(second.data.off, 128);
    assert!(second.data.len.is_none());
    assert!(second.data.image.is_none());
    assert!(second.data.sha.is_none());
    assert!(second.data.upgrade.is_none());

    // Resetting the offset to zero re-sends from the start: the chunk at
    // offset zero carries the metadata again.
    writer.offset = 0;
    let resent = writer.write_chunk(&image[..128]);
    assert_eq!(resent.data.off, 0);
    assert_eq!(resent.data.len, Some(300));
    assert_eq!(resent.data.image, Some(2));
    assert_eq!(resent.data.sha.as_deref(), Some(&hash[..]));
    assert_eq!(resent.data.upgrade, Some(true));
}

#[test]
fn upload_optional_metadata_is_omitted_when_unset() {
    let mut writer = ImageWriter::new(None, 10, None, false);
    let frame = writer.write_chunk(&[1, 2, 3]);
    assert_eq!(frame.data.off, 0);
    assert_eq!(frame.data.len, Some(10));
    assert!(frame.data.image.is_none());
    assert!(frame.data.sha.is_none());
    // The upgrade flag is attached only when set.
    assert!(frame.data.upgrade.is_none());
}

#[test]
fn upload_frames_are_write_requests_in_application_group() {
    let mut writer = ImageWriter::new(None, 4, None, false);
    let frame = writer.write_chunk(&[9, 9, 9, 9]);
    assert!(matches!(frame.operation, OpCode::WriteRequest));
    assert!(matches!(frame.group, Group::ApplicationManagement));
    assert_eq!(frame.command, 1);
    assert_eq!(frame.flags, 0);
    assert_eq!(frame.data.data, vec![9, 9, 9, 9]);
}

#[test]
fn upload_sequence_wraps_modulo_256() {
    let mut writer = ImageWriter::new(None, 100000, None, false);
    assert_eq!(writer.sequence, 0);
    let first = writer.write_chunk(&[0]);
    assert_eq!(first.sequence, 1);
    for _ in 0..254 {
        writer.write_chunk(&[0]);
    }
    assert_eq!(writer.sequence, 255);
    let wrapped = writer.write_chunk(&[0]);
    assert_eq!(wrapped.sequence, 0);
    assert_eq!(writer.sequence, 0);
}
