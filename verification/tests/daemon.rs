use std::io::Cursor;
use std::io::Write;
use std::sync::Arc;
use std::sync::Mutex;

use random_sensor::logger::Destination;
use random_sensor::logger::LogError;
use random_sensor::logger::append_records;
use random_sensor::logger::choose_destination;
use random_sensor::logger::fallback_path;
use random_sensor::logger::from_writer;
use random_sensor::logger::log_message;
use random_sensor::poll::EXIT_CONFIG_ERROR;
use random_sensor::poll::EXIT_SENSOR_FAILURE;
use random_sensor::poll::EXIT_SUCCESS;
use random_sensor::poll::ConfigError;
use random_sensor::poll::PollLoop;
use random_sensor::poll::ReadAction;
use random_sensor::poll::StartAction;
use random_sensor::poll::current_timestamp;
use random_sensor::poll::format_failure_line;
use random_sensor::poll::format_hex8;
use random_sensor::poll::format_success_line;
use random_sensor::poll::validate_interval;
use random_sensor::sensor::SensorError;
use random_sensor::sensor::decode_sample;

/// A sink that exposes what has actually reached it, so a test can observe
/// what is durable at the destination.
#[derive(Clone)]
struct SharedBuf(Arc<Mutex<Vec<u8>>>);

impl SharedBuf {
    fn new() -> SharedBuf {
        SharedBuf(Arc::new(Mutex::new(Vec::new())))
    }

    fn contents(&self) -> String {
        String::from_utf8(self.0.lock().unwrap().clone()).unwrap()
    }
}

impl Write for SharedBuf {
    fn write(&mut self, buf: &[u8]) -> std::io::Result<usize> {
        self.0.lock().unwrap().extend_from_slice(buf);
        Ok(buf.len())
    }

    fn flush(&mut self) -> std::io::Result<()> {
        Ok(())
    }
}

/// A sink whose writes fail.
struct BrokenWriter;

impl Write for BrokenWriter {
    fn write(&mut self, _buf: &[u8]) -> std::io::Result<usize> {
        Err(std::io::Error::new(std::io::ErrorKind::Other, "broken"))
    }

    fn flush(&mut self) -> std::io::Result<()> {
        Err(std::io::Error::new(std::io::ErrorKind::Other, "broken"))
    }
}

#[test]
fn test_log_message_basic() {
    let inner_vec: Vec<u8> = Vec::new();
    let mut writer = from_writer(Cursor::new(inner_vec));

    let result = log_message(&mut writer, "test message");
    assert!(result.is_ok());
}

#[test]
fn test_log_message_is_durable() {
    let buf = SharedBuf::new();
    let mut writer = from_writer(buf.clone());

    let result = log_message(&mut writer, "hello");
    assert!(result.is_ok());
    assert_eq!(buf.contents(), "hello\n");
}

#[test]
fn test_log_message_reports_broken_sink() {
    let mut writer = from_writer(BrokenWriter);
    let result = log_message(&mut writer, "lost");
    // The line fits the in-process buffers, so the broken sink is only hit
    // when the append forces its flush.
    assert_eq!(result, Err(LogError::FlushFailed));
}

#[test]
fn test_log_message_reports_write_failure() {
    let mut writer = from_writer(BrokenWriter);
    // A message larger than the in-process buffers reaches the broken sink
    // during the write itself.
    let long_message = "x".repeat(10_000);
    let result = log_message(&mut writer, &long_message);
    assert_eq!(result, Err(LogError::WriteFailed));
}

#[test]
fn test_append_records_keeps_order() {
    let buf = SharedBuf::new();
    let mut writer = from_writer(buf.clone());

    let records = vec![
        String::from("first"),
        String::from("second"),
        String::from("third"),
    ];
    let result = append_records(&mut writer, &records);
    assert!(result.is_ok());
    assert_eq!(buf.contents(), "first\nsecond\nthird\n");
}

#[test]
fn test_decode_sample_little_endian() {
    assert_eq!(decode_sample(&[0x01, 0x02, 0x03, 0x04]), Ok(0x04030201));
    assert_eq!(
        decode_sample(&[0x01, 0x02, 0x03, 0x04]),
        Ok(1 + 2 * 256 + 3 * 65536 + 4 * 16777216)
    );
    assert_eq!(decode_sample(&[0, 0, 0, 0]), Ok(0));
    assert_eq!(decode_sample(&[0xFF, 0xFF, 0xFF, 0xFF]), Ok(u32::MAX));
}

#[test]
fn test_decode_sample_ignores_trailing_bytes() {
    assert_eq!(decode_sample(&[0x01, 0x02, 0x03, 0x04, 0x99, 0x98]), Ok(0x04030201));
}

#[test]
fn test_decode_sample_short_input() {
    assert_eq!(decode_sample(&[]), Err(SensorError::EndOfInput));
    assert_eq!(decode_sample(&[0x01]), Err(SensorError::EndOfInput));
    assert_eq!(decode_sample(&[0x01, 0x02]), Err(SensorError::EndOfInput));
    assert_eq!(decode_sample(&[0x01, 0x02, 0x03]), Err(SensorError::EndOfInput));
}

#[test]
fn test_format_hex8_exact() {
    assert_eq!(format_hex8(0x04030201), "04030201");
    assert_eq!(format_hex8(0), "00000000");
    assert_eq!(format_hex8(0xDEADBEEF), "DEADBEEF");
    assert_eq!(format_hex8(u32::MAX), "FFFFFFFF");
}

#[test]
fn test_success_line_ends_in_sample() {
    let line = format_success_line("2024-05-01T12:00:00.000000001Z", 0x04030201);
    assert_eq!(line, "2024-05-01T12:00:00.000000001Z | 0x04030201");
    assert!(line.ends_with("0x04030201"));
}

#[test]
fn test_failure_line_names_sensor_error() {
    let line = format_failure_line("2024-05-01T12:00:00.000000001Z", &SensorError::NotFound);
    assert_eq!(line, "2024-05-01T12:00:00.000000001Z | Sensor error: device not found");
    assert!(line.contains("Sensor error"));
    assert_eq!(EXIT_SENSOR_FAILURE, 66);
}

#[test]
fn test_sensor_error_messages() {
    assert_eq!(SensorError::NotFound.message(), "device not found");
    assert_eq!(SensorError::PermissionDenied.message(), "permission denied");
    assert_eq!(SensorError::IsADirectory.message(), "device path is a directory");
    assert_eq!(SensorError::EndOfInput.message(), "end of input before a full sample");
    assert_eq!(SensorError::Other.message(), "input/output failure");
}

#[test]
fn test_stop_before_first_tick() {
    let mut poll = PollLoop::new();
    assert!(poll.is_running());

    match poll.begin_tick(true) {
        StartAction::Shutdown { line } => {
            assert_eq!(line, "Received SIGTERM, exiting gracefully.");
        }
        StartAction::Read => panic!("a stopping tick must not read"),
    }
    assert!(!poll.is_running());
    assert_eq!(EXIT_SUCCESS, 0);
}

#[test]
fn test_tick_reads_then_appends() {
    let mut poll = PollLoop::new();
    match poll.begin_tick(false) {
        StartAction::Shutdown { .. } => panic!("no stop was requested"),
        StartAction::Read => {}
    }
    match poll.complete_read("2024-05-01T12:00:00.000000001Z", &Ok(5)) {
        ReadAction::Append { line } => {
            assert_eq!(line, "2024-05-01T12:00:00.000000001Z | 0x00000005");
        }
        ReadAction::Fail { .. } => panic!("the read succeeded"),
    }
    assert!(poll.is_running());
}

#[test]
fn test_read_failure_is_fatal() {
    let mut poll = PollLoop::new();
    match poll.begin_tick(false) {
        StartAction::Shutdown { .. } => panic!("no stop was requested"),
        StartAction::Read => {}
    }
    match poll.complete_read("2024-05-01T12:00:00.000000001Z", &Err(SensorError::NotFound)) {
        ReadAction::Append { .. } => panic!("the read failed"),
        ReadAction::Fail { line, cause } => {
            assert_eq!(line, "2024-05-01T12:00:00.000000001Z | Sensor error: device not found");
            assert_eq!(cause, "device not found");
        }
    }
    assert!(!poll.is_running());
}

#[test]
fn test_validate_interval() {
    assert_eq!(validate_interval(0), Err(ConfigError::ZeroInterval));
    assert_eq!(validate_interval(1), Ok(1));
    assert_eq!(validate_interval(5), Ok(5));
    assert_eq!(EXIT_CONFIG_ERROR, 1);
}

#[test]
fn test_fallback_path_substitutes_temp_segment() {
    assert_eq!(fallback_path("/tmp/random_sensor.log"), "/var/tmp/random_sensor.log");
    assert_eq!(fallback_path("/home/user/sensor.log"), "/home/user/sensor.log");
    assert_eq!(fallback_path(""), "");
}

#[test]
fn test_fallback_path_substitutes_inner_segment() {
    assert_eq!(fallback_path("/data/tmp/a.log"), "/data/var/tmp/a.log");
    assert_eq!(fallback_path("/a/tmp"), "/a/var/tmp");
    assert_eq!(fallback_path("/tmp/tmp/a.log"), "/var/tmp/tmp/a.log");
}

#[test]
fn test_fallback_path_needs_whole_segment() {
    assert_eq!(fallback_path("/tmpfoo/a.log"), "/tmpfoo/a.log");
    assert_eq!(fallback_path("/data/tmpx/tmp/a.log"), "/data/tmpx/var/tmp/a.log");
}

#[test]
fn test_choose_destination_first_success_wins() {
    assert_eq!(choose_destination(true, true), Destination::Primary);
    assert_eq!(choose_destination(true, false), Destination::Primary);
    assert_eq!(choose_destination(false, true), Destination::Fallback);
    assert_eq!(choose_destination(false, false), Destination::Stderr);
}

#[test]
fn test_scenario_device_yields_one_line() {
    // One full tick over a device that yielded the bytes 01 02 03 04.
    let buf = SharedBuf::new();
    let mut writer = from_writer(buf.clone());
    let mut poll = PollLoop::new();

    match poll.begin_tick(false) {
        StartAction::Shutdown { .. } => panic!("no stop was requested"),
        StartAction::Read => {}
    }
    let reading = decode_sample(&[0x01, 0x02, 0x03, 0x04]);
    match poll.complete_read("2024-05-01T12:00:00.000000001Z", &reading) {
        ReadAction::Append { line } => {
            assert!(log_message(&mut writer, &line).is_ok());
        }
        ReadAction::Fail { .. } => panic!("the read succeeded"),
    }

    let logged = buf.contents();
    assert_eq!(logged.lines().count(), 1);
    assert!(logged.lines().next().unwrap().ends_with("0x04030201"));
    assert!(poll.is_running());
}

#[test]
fn test_current_timestamp_is_rfc3339() {
    let ts = current_timestamp();
    assert!(chrono::DateTime::parse_from_rfc3339(&ts).is_ok());

    let chars: Vec<char> = ts.chars().collect();
    let n = chars.len();
    assert!(n >= 30);
    assert_eq!(chars[n - 1], 'Z');
    assert!(chars[n - 10..n - 1].iter().all(|c| c.is_ascii_digit()));
    assert_eq!(chars[n - 11], '.');
    assert_eq!(chars[n - 14], ':');
    assert_eq!(chars[n - 17], ':');
    assert_eq!(chars[n - 20], 'T');
    assert_eq!(chars[n - 23], '-');
    assert_eq!(chars[n - 26], '-');
}
