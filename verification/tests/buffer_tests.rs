//! Tests of the packet relocation map and the packetized buffer geometry.

use roccat_vulcan_api_rs::BITE_PACKET_SIZE;
use roccat_vulcan_api_rs::BUFFER_SIZE_PACKETED;
use roccat_vulcan_api_rs::BUFFER_SIZE_RAW;
use roccat_vulcan_api_rs::Color;
use roccat_vulcan_api_rs::ColorBuffer;
use roccat_vulcan_api_rs::ColorRgb;
use roccat_vulcan_api_rs::KEY_PACKET_SIZE;
use roccat_vulcan_api_rs::NUMBER_KEY_LED_BUFFER;
use roccat_vulcan_api_rs::get_packeted_index_from_raw;

#[test]
fn color_test_packet_index() {
    assert_eq!(get_packeted_index_from_raw(0, 64), 1);
    assert_eq!(get_packeted_index_from_raw(63, 64), 64);
    assert_eq!(get_packeted_index_from_raw(64, 64), 66);
    assert_eq!(get_packeted_index_from_raw(65, 64), 67);
    assert_eq!(get_packeted_index_from_raw(128, 64), 131);
    assert_eq!(get_packeted_index_from_raw(31, 32), 32);
    assert_eq!(get_packeted_index_from_raw(32, 32), 34);
    assert_eq!(get_packeted_index_from_raw(33, 32), 35);
    assert_eq!(get_packeted_index_from_raw(0, 32), 1);
    assert_eq!(get_packeted_index_from_raw(4, 2), 7);
}

#[test]
fn color_test_buffer_size() {
    assert_eq!(BUFFER_SIZE_PACKETED % (BITE_PACKET_SIZE + 1), 0)
}

#[test]
fn buffer_test_buffer_size() {
    assert_eq!(BUFFER_SIZE_PACKETED % (BITE_PACKET_SIZE + 1), 0);
}

#[test]
fn test_led_buffer_length() {
    assert_eq!(NUMBER_KEY_LED_BUFFER % KEY_PACKET_SIZE, 0);
}

#[test]
fn buffer_test_packet_index() {
    assert_eq!(get_packeted_index_from_raw(0, 64), 1);
    assert_eq!(get_packeted_index_from_raw(63, 64), 64);
    assert_eq!(get_packeted_index_from_raw(64, 64), 66);
    assert_eq!(get_packeted_index_from_raw(65, 64), 67);
    assert_eq!(get_packeted_index_from_raw(128, 64), 131);
    assert_eq!(get_packeted_index_from_raw(31, 32), 32);
    assert_eq!(get_packeted_index_from_raw(32, 32), 34);
    assert_eq!(get_packeted_index_from_raw(33, 32), 35);
    assert_eq!(get_packeted_index_from_raw(0, 32), 1);
    assert_eq!(get_packeted_index_from_raw(4, 2), 7);
}

#[test]
fn test_color_buffer() {
    let buffer = ColorBuffer::<ColorRgb>::from_element(ColorRgb::new(255, 255, 255));
    let raw = buffer.get_led_buffer();
    let bite_to_write = BITE_PACKET_SIZE + 1;
    for i in 0..(raw.len() / bite_to_write) {
        assert_eq!(raw[i * bite_to_write], 0);
    }
}

/// The relocation map is strictly increasing and never lands on a packet
/// marker, over the whole logical range.
#[test]
fn packet_index_monotonic_and_avoids_markers() {
    let mut previous: usize = 0;
    for idx in 0..BUFFER_SIZE_RAW {
        let p = get_packeted_index_from_raw(idx, BITE_PACKET_SIZE);
        assert_ne!(p % (BITE_PACKET_SIZE + 1), 0);
        if idx > 0 {
            assert!(previous < p);
        }
        previous = p;
    }
}

/// Pack-then-inspect is lossless per channel: every key's channel bytes are
/// read back at the packetized offsets of the logical layout.
#[test]
fn led_buffer_roundtrip_per_channel() {
    let mut colors: Vec<ColorRgb> = Vec::new();
    for i in 0..NUMBER_KEY_LED_BUFFER {
        let r = i as u8;
        let g = 255 - i as u8;
        let b = ((i * 7) % 256) as u8;
        colors.push(ColorRgb::new(r, g, b));
    }
    let buffer = ColorBuffer::from_array(colors);
    let raw = buffer.get_led_buffer();
    assert_eq!(raw.len(), BUFFER_SIZE_PACKETED);
    let head_len = BUFFER_SIZE_RAW - NUMBER_KEY_LED_BUFFER * 3;
    for i in 0..NUMBER_KEY_LED_BUFFER {
        let base = head_len + i % KEY_PACKET_SIZE + 3 * KEY_PACKET_SIZE * (i / KEY_PACKET_SIZE);
        let color = buffer.buffer()[i];
        let pos_r = get_packeted_index_from_raw(base, BITE_PACKET_SIZE);
        let pos_g = get_packeted_index_from_raw(base + KEY_PACKET_SIZE, BITE_PACKET_SIZE);
        let pos_b = get_packeted_index_from_raw(base + 2 * KEY_PACKET_SIZE, BITE_PACKET_SIZE);
        assert_eq!(raw[pos_r], color.r());
        assert_eq!(raw[pos_g], color.g());
        assert_eq!(raw[pos_b], color.b());
    }
}

#[test]
fn color_buffer_accessors() {
    let mut buffer = ColorBuffer::<ColorRgb>::new();
    assert_eq!(buffer.buffer().len(), NUMBER_KEY_LED_BUFFER);
    assert_eq!(*buffer.buffer().first().unwrap(), ColorRgb::default());
    assert!(buffer.get(NUMBER_KEY_LED_BUFFER).is_none());
    assert_eq!(buffer.get(3), Some(&ColorRgb::default()));
    *buffer.get_mut(3).unwrap() = ColorRgb::new(9, 9, 9);
    assert_eq!(buffer.get(3), Some(&ColorRgb::new(9, 9, 9)));
    assert!(buffer.get_mut(NUMBER_KEY_LED_BUFFER).is_none());
    buffer.buffer_mut()[0] = ColorRgb::new(1, 1, 1);
    assert_eq!(buffer.iter()[0], ColorRgb::new(1, 1, 1));
    let copy = ColorBuffer::from_array(buffer.buffer().clone());
    assert_eq!(copy.buffer(), buffer.buffer());
}

/// The packets are the 65-byte chunks of the LED buffer, each led by the
/// zero marker.
#[test]
fn led_packets_chunk_the_buffer() {
    let buffer = ColorBuffer::<ColorRgb>::from_element(ColorRgb::new(10, 20, 30));
    let raw = buffer.get_led_buffer();
    let packets = buffer.get_led_packets();
    assert_eq!(packets.len(), BUFFER_SIZE_PACKETED / (BITE_PACKET_SIZE + 1));
    for (k, packet) in packets.iter().enumerate() {
        assert_eq!(packet.len(), BITE_PACKET_SIZE + 1);
        assert_eq!(packet[0], 0);
        for (j, byte) in packet.iter().enumerate() {
            assert_eq!(*byte, raw[k * (BITE_PACKET_SIZE + 1) + j]);
        }
    }
}
