use yuha::protocol::buffer::{MessageBuffer, ProtocolBuffer, SimpleResponseBuffer};
use yuha::protocol::codec::CompressedJsonCodec;
use yuha::protocol::daemon::DaemonConfig;
use yuha::protocol::{ResponseBuffer, ResponseItem};

#[test]
fn response_buffer_reports_connections_in_order() {
    let mut buffer = ResponseBuffer::new();
    assert!(!buffer.has_data());
    buffer.add_new_connection(1, 8080);
    buffer.add_port_forward_data(1, vec![1, 2, 3]);
    buffer.add_clipboard_content("clip".to_string());
    assert!(buffer.is_connection_active(1));
    buffer.add_close_connection(1);
    assert!(!buffer.is_connection_active(1));
    assert!(buffer.has_data());
    let items = buffer.take_items();
    assert_eq!(items.len(), 4);
    assert!(matches!(items[0], ResponseItem::NewConnection { connection_id: 1, local_port: 8080 }));
    assert!(matches!(&items[1], ResponseItem::PortForwardData { connection_id: 1, data } if data == &vec![1, 2, 3]));
    assert!(matches!(&items[2], ResponseItem::ClipboardContent { content } if content == "clip"));
    assert!(matches!(items[3], ResponseItem::CloseConnection { connection_id: 1 }));
    assert!(!buffer.has_data());
    assert!(buffer.take_items().is_empty());
}

#[test]
fn simple_buffer_remembers_closed_connections() {
    let mut buffer = SimpleResponseBuffer::new();
    buffer.add_new_connection(7, 22);
    buffer.add_new_connection(8, 23);
    buffer.add_close_connection(7);
    assert_eq!(buffer.get_closed_connections(), &[7]);
    assert_eq!(buffer.get_pending_connections().len(), 1);
    assert_eq!(buffer.get_pending_connections().get(&8), Some(&23));
    assert!(buffer.has_data());
    assert_eq!(buffer.take_items().len(), 3);
    buffer.clear();
    assert!(buffer.get_closed_connections().is_empty());
    assert!(!buffer.is_connection_active(8));
}

#[test]
fn bounded_buffer_drops_the_oldest() {
    let mut buffer: MessageBuffer<u32> = MessageBuffer::with_capacity(2);
    buffer.add_item(1);
    buffer.add_item(2);
    assert!(buffer.is_full());
    buffer.add_item(3);
    assert_eq!(buffer.len(), 2);
    assert_eq!(buffer.take_items(), vec![2, 3]);
    assert!(buffer.is_empty());
}

#[test]
fn unbounded_buffer_keeps_everything() {
    let mut buffer: MessageBuffer<&str> = MessageBuffer::new();
    for _ in 0..100 {
        buffer.add_item("x");
    }
    assert!(!buffer.is_full());
    assert_eq!(buffer.len(), 100);
    buffer.clear();
    assert!(!buffer.has_data());
}

#[test]
fn codec_keeps_its_level_and_daemon_defaults() {
    let codec = CompressedJsonCodec::new(6);
    assert_eq!(codec.compression_level(), 6);
    let config = DaemonConfig::default();
    assert_eq!(config.socket_path, "/tmp/yuha.sock");
    assert_eq!(config.max_clients, 10);
    assert_eq!(config.session_idle_timeout, 300);
    assert!(config.enable_session_pooling);
}
