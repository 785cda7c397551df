use srt_c::codec::{ByteOrder, Val};
use srt_c::connected::Connected;
use srt_c::errors::{OptionError, SRT_ERRNO};
use srt_c::settings::{
    ApiOptions, ConnectionSettings, KeySettings, KeySize, LiveBandwidthMode,
    Passphrase, SocketOptions, StreamId,
};
use srt_c::socket::SocketData;
use srt_c::sockopt::{
    getsockflag_buffer, option_value, srt_getsockflag, srt_getsockopt, srt_setsockflag,
    srt_setsockopt, SRT_SOCKOPT,
};

type Sock = SocketData<&'static str, &'static str, u8, u16, u32>;

const LE: ByteOrder = ByteOrder::LittleEndian;
const BE: ByteOrder = ByteOrder::BigEndian;

fn settings() -> ConnectionSettings {
    ConnectionSettings {
        recv_tsbpd_latency: 250,
        send_tsbpd_latency: 350,
        bandwidth: LiveBandwidthMode::Max(5_000_000),
        stream_id: Some(String::from("live/feed")),
    }
}

fn api(snd_syn: bool, rcv_syn: bool) -> ApiOptions<u32> {
    ApiOptions { snd_syn, rcv_syn, listen_cb: None }
}

fn established() -> Sock {
    SocketData::Established(Connected::new("session", settings()), api(true, false))
}

fn every_phase() -> Vec<Sock> {
    vec![
        SocketData::new(),
        SocketData::ConnectingNonBlocking(7, api(true, true)),
        established(),
        SocketData::Listening("listener", Some(1), 2, api(true, true)),
        SocketData::ConnectFailed(String::from("timed out")),
        SocketData::Accepting(None),
        SocketData::Closed,
    ]
}

fn every_option() -> Vec<SRT_SOCKOPT> {
    let mut all: Vec<SRT_SOCKOPT> = Vec::new();
    let mut code: i32 = -1;
    while code <= 70 {
        if let Some(opt) = SRT_SOCKOPT::from_code(code) {
            all.push(opt);
        }
        code += 1;
    }
    all
}

fn get_int(sock: &Sock, opt: SRT_SOCKOPT) -> i32 {
    let (bytes, len) = srt_getsockflag(sock, opt, 4, LE).unwrap();
    assert_eq!(len, 4);
    i32::from_le_bytes([bytes[0], bytes[1], bytes[2], bytes[3]])
}

#[test]
fn option_numbers_are_those_of_the_api() {
    assert_eq!(SRT_SOCKOPT::SRTO_MSS.code(), 0);
    assert_eq!(SRT_SOCKOPT::SRTO_SNDSYN.code(), 1);
    assert_eq!(SRT_SOCKOPT::SRTO_RCVSYN.code(), 2);
    assert_eq!(SRT_SOCKOPT::SRTO_UDP_RCVBUF.code(), 9);
    assert_eq!(SRT_SOCKOPT::SRTO_RENDEZVOUS.code(), 12);
    assert_eq!(SRT_SOCKOPT::SRTO_SENDER.code(), 21);
    assert_eq!(SRT_SOCKOPT::SRTO_TSBPDMODE.code(), 22);
    assert_eq!(SRT_SOCKOPT::SRTO_OHEADBW.code(), 25);
    assert_eq!(SRT_SOCKOPT::SRTO_PASSPHRASE.code(), 26);
    assert_eq!(SRT_SOCKOPT::SRTO_KMSTATE.code(), 28);
    assert_eq!(SRT_SOCKOPT::SRTO_CONNTIMEO.code(), 36);
    assert_eq!(SRT_SOCKOPT::SRTO_MININPUTBW.code(), 38);
    assert_eq!(SRT_SOCKOPT::SRTO_SNDKMSTATE.code(), 40);
    assert_eq!(SRT_SOCKOPT::SRTO_RCVLATENCY.code(), 43);
    assert_eq!(SRT_SOCKOPT::SRTO_PEERLATENCY.code(), 44);
    assert_eq!(SRT_SOCKOPT::SRTO_STREAMID.code(), 46);
    assert_eq!(SRT_SOCKOPT::SRTO_TRANSTYPE.code(), 50);
    assert_eq!(SRT_SOCKOPT::SRTO_BINDTODEVICE.code(), 56);
    assert_eq!(SRT_SOCKOPT::SRTO_PACKETFILTER.code(), 60);
    assert_eq!(SRT_SOCKOPT::SRTO_RETRANSMITALGO.code(), 61);
    assert_eq!(SRT_SOCKOPT::SRTO_E_SIZE.code(), 62);
}

#[test]
fn option_numbers_have_gaps() {
    assert_eq!(SRT_SOCKOPT::from_code(10), None);
    assert_eq!(SRT_SOCKOPT::from_code(11), None);
    assert_eq!(SRT_SOCKOPT::from_code(39), None);
    assert_eq!(SRT_SOCKOPT::from_code(57), None);
    assert_eq!(SRT_SOCKOPT::from_code(59), None);
    assert_eq!(SRT_SOCKOPT::from_code(63), None);
    assert_eq!(SRT_SOCKOPT::from_code(-1), None);
    assert_eq!(every_option().len(), 57);
    for opt in every_option() {
        assert_eq!(SRT_SOCKOPT::from_code(opt.code()), Some(opt));
    }
}

#[test]
fn blocking_flags_read_back_as_set() {
    let mut sock: Sock = SocketData::new();
    assert_eq!(get_int(&sock, SRT_SOCKOPT::SRTO_RCVSYN), 1);
    assert_eq!(get_int(&sock, SRT_SOCKOPT::SRTO_SNDSYN), 1);
    assert_eq!(srt_setsockflag(&mut sock, SRT_SOCKOPT::SRTO_RCVSYN, Some(&0i32.to_le_bytes()), LE), Ok(()));
    assert_eq!(get_int(&sock, SRT_SOCKOPT::SRTO_RCVSYN), 0);
    assert_eq!(get_int(&sock, SRT_SOCKOPT::SRTO_SNDSYN), 1);
    assert_eq!(srt_setsockflag(&mut sock, SRT_SOCKOPT::SRTO_SNDSYN, Some(&0i32.to_le_bytes()), LE), Ok(()));
    assert_eq!(get_int(&sock, SRT_SOCKOPT::SRTO_SNDSYN), 0);
    assert_eq!(srt_setsockflag(&mut sock, SRT_SOCKOPT::SRTO_RCVSYN, Some(&1i32.to_le_bytes()), LE), Ok(()));
    assert_eq!(get_int(&sock, SRT_SOCKOPT::SRTO_RCVSYN), 1);
    assert_eq!(get_int(&sock, SRT_SOCKOPT::SRTO_SNDSYN), 0);
}

#[test]
fn a_flag_set_to_any_other_number_reads_back_as_one() {
    let mut sock: Sock = SocketData::new();
    srt_setsockflag(&mut sock, SRT_SOCKOPT::SRTO_RCVSYN, Some(&0i32.to_le_bytes()), LE).unwrap();
    srt_setsockflag(&mut sock, SRT_SOCKOPT::SRTO_RCVSYN, Some(&17i32.to_le_bytes()), LE).unwrap();
    assert_eq!(get_int(&sock, SRT_SOCKOPT::SRTO_RCVSYN), 1);
}

#[test]
fn blocking_flags_live_in_every_phase_with_api_flags() {
    for mut sock in every_phase() {
        let has_flags = sock.api_opts().is_some();
        let set = srt_setsockflag(&mut sock, SRT_SOCKOPT::SRTO_SNDSYN, Some(&0i32.to_be_bytes()), BE);
        let got = srt_getsockflag(&sock, SRT_SOCKOPT::SRTO_SNDSYN, 4, BE);
        if has_flags {
            assert_eq!(set, Ok(()));
            assert_eq!(got, Ok((vec![0, 0, 0, 0], 4)));
            assert!(!sock.api_opts().unwrap().snd_syn);
        } else {
            assert_eq!(set, Err(OptionError::Rejected(SRT_ERRNO::SRT_ENOCONN)));
            assert_eq!(got, Err(OptionError::Rejected(SRT_ERRNO::SRT_ENOCONN)));
        }
    }
}

#[test]
fn a_flag_of_the_wrong_width_is_an_invalid_parameter() {
    let mut sock: Sock = SocketData::new();
    let short: [u8; 1] = [0];
    assert_eq!(
        srt_setsockflag(&mut sock, SRT_SOCKOPT::SRTO_RCVSYN, Some(&short), LE),
        Err(OptionError::Rejected(SRT_ERRNO::SRT_EINVPARAM))
    );
    assert_eq!(
        srt_setsockflag(&mut sock, SRT_SOCKOPT::SRTO_SNDSYN, None, LE),
        Err(OptionError::Rejected(SRT_ERRNO::SRT_EINVPARAM))
    );
    assert_eq!(get_int(&sock, SRT_SOCKOPT::SRTO_RCVSYN), 1);
    assert_eq!(get_int(&sock, SRT_SOCKOPT::SRTO_SNDSYN), 1);
}

#[test]
fn timeouts_and_latencies_read_back_as_set() {
    let mut sock: Sock = SocketData::new();
    assert_eq!(get_int(&sock, SRT_SOCKOPT::SRTO_CONNTIMEO), 3000);
    assert_eq!(get_int(&sock, SRT_SOCKOPT::SRTO_RCVLATENCY), 120);
    assert_eq!(get_int(&sock, SRT_SOCKOPT::SRTO_PEERLATENCY), 120);
    srt_setsockflag(&mut sock, SRT_SOCKOPT::SRTO_CONNTIMEO, Some(&1500i32.to_le_bytes()), LE).unwrap();
    srt_setsockflag(&mut sock, SRT_SOCKOPT::SRTO_RCVLATENCY, Some(&200i32.to_le_bytes()), LE).unwrap();
    srt_setsockflag(&mut sock, SRT_SOCKOPT::SRTO_PEERLATENCY, Some(&i32::MAX.to_le_bytes()), LE).unwrap();
    assert_eq!(get_int(&sock, SRT_SOCKOPT::SRTO_CONNTIMEO), 1500);
    assert_eq!(get_int(&sock, SRT_SOCKOPT::SRTO_RCVLATENCY), 200);
    assert_eq!(get_int(&sock, SRT_SOCKOPT::SRTO_PEERLATENCY), i32::MAX);
    let so = sock.sock_opts().unwrap();
    assert_eq!(so.connect_timeout, 1500);
    assert_eq!(so.receive_latency, 200);
    assert_eq!(so.peer_latency, i32::MAX as u64);
    srt_setsockflag(&mut sock, SRT_SOCKOPT::SRTO_CONNTIMEO, Some(&0i32.to_le_bytes()), LE).unwrap();
    assert_eq!(get_int(&sock, SRT_SOCKOPT::SRTO_CONNTIMEO), 0);
}

#[test]
fn a_negative_duration_is_an_invalid_parameter() {
    let mut sock: Sock = SocketData::new();
    for opt in [SRT_SOCKOPT::SRTO_CONNTIMEO, SRT_SOCKOPT::SRTO_RCVLATENCY, SRT_SOCKOPT::SRTO_PEERLATENCY] {
        assert_eq!(
            srt_setsockflag(&mut sock, opt, Some(&(-1i32).to_le_bytes()), LE),
            Err(OptionError::Rejected(SRT_ERRNO::SRT_EINVPARAM))
        );
        assert_eq!(
            srt_setsockflag(&mut sock, opt, Some(&5i64.to_le_bytes()), LE),
            Err(OptionError::Rejected(SRT_ERRNO::SRT_EINVPARAM))
        );
    }
    assert_eq!(get_int(&sock, SRT_SOCKOPT::SRTO_CONNTIMEO), 3000);
    assert_eq!(get_int(&sock, SRT_SOCKOPT::SRTO_RCVLATENCY), 120);
    assert_eq!(get_int(&sock, SRT_SOCKOPT::SRTO_PEERLATENCY), 120);
}

#[test]
fn the_expected_input_rate_reads_back_as_set() {
    let mut sock: Sock = SocketData::new();
    assert_eq!(srt_getsockflag(&sock, SRT_SOCKOPT::SRTO_MININPUTBW, 8, LE), Ok((vec![0; 8], 8)));
    let rate: i64 = 1_250_000;
    srt_setsockflag(&mut sock, SRT_SOCKOPT::SRTO_MININPUTBW, Some(&rate.to_le_bytes()), LE).unwrap();
    assert_eq!(
        srt_getsockflag(&sock, SRT_SOCKOPT::SRTO_MININPUTBW, 8, LE),
        Ok((rate.to_le_bytes().to_vec(), 8))
    );
    assert_eq!(
        sock.sock_opts().unwrap().bandwidth,
        LiveBandwidthMode::Estimated { expected: 1_250_000, overhead: 25 }
    );
    let negative: i64 = -3;
    srt_setsockflag(&mut sock, SRT_SOCKOPT::SRTO_MININPUTBW, Some(&negative.to_be_bytes()), BE).unwrap();
    assert_eq!(
        srt_getsockflag(&sock, SRT_SOCKOPT::SRTO_MININPUTBW, 8, BE),
        Ok((negative.to_be_bytes().to_vec(), 8))
    );
    assert_eq!(
        sock.sock_opts().unwrap().bandwidth,
        LiveBandwidthMode::Estimated { expected: u64::MAX - 2, overhead: 25 }
    );
}

#[test]
fn an_expected_input_rate_keeps_the_overhead_of_an_earlier_estimate() {
    let mut so = SocketOptions::default();
    so.bandwidth = LiveBandwidthMode::Estimated { expected: 10, overhead: 40 };
    let mut sock: Sock = SocketData::Initialized(so, None, api(true, true));
    srt_setsockflag(&mut sock, SRT_SOCKOPT::SRTO_MININPUTBW, Some(&99i64.to_le_bytes()), LE).unwrap();
    assert_eq!(
        sock.sock_opts().unwrap().bandwidth,
        LiveBandwidthMode::Estimated { expected: 99, overhead: 40 }
    );
    let mut so = SocketOptions::default();
    so.bandwidth = LiveBandwidthMode::Input { rate: 10, overhead: 40 };
    let mut sock: Sock = SocketData::Initialized(so, None, api(true, true));
    srt_setsockflag(&mut sock, SRT_SOCKOPT::SRTO_MININPUTBW, Some(&99i64.to_le_bytes()), LE).unwrap();
    assert_eq!(
        sock.sock_opts().unwrap().bandwidth,
        LiveBandwidthMode::Estimated { expected: 99, overhead: 25 }
    );
}

#[test]
fn an_expected_input_rate_of_the_wrong_width_is_an_invalid_parameter() {
    let mut sock: Sock = SocketData::new();
    assert_eq!(
        srt_setsockflag(&mut sock, SRT_SOCKOPT::SRTO_MININPUTBW, Some(&7i32.to_le_bytes()), LE),
        Err(OptionError::Rejected(SRT_ERRNO::SRT_EINVPARAM))
    );
    assert_eq!(sock.sock_opts().unwrap().bandwidth, LiveBandwidthMode::Unlimited);
}

#[test]
fn the_stream_identifier_reads_back_as_set() {
    let mut sock: Sock = SocketData::new();
    assert_eq!(srt_getsockflag(&sock, SRT_SOCKOPT::SRTO_STREAMID, 1, LE), Ok((vec![0], 0)));
    srt_setsockflag(&mut sock, SRT_SOCKOPT::SRTO_STREAMID, Some(b"camera-7"), LE).unwrap();
    let mut expected: Vec<u8> = b"camera-7".to_vec();
    expected.push(0);
    assert_eq!(srt_getsockflag(&sock, SRT_SOCKOPT::SRTO_STREAMID, 9, LE), Ok((expected.clone(), 8)));
    assert_eq!(srt_getsockflag(&sock, SRT_SOCKOPT::SRTO_STREAMID, 512, LE), Ok((expected, 8)));
    assert_eq!(
        srt_getsockflag(&sock, SRT_SOCKOPT::SRTO_STREAMID, 8, LE),
        Err(OptionError::Rejected(SRT_ERRNO::SRT_EINVPARAM))
    );
}

#[test]
fn a_stream_identifier_has_at_most_512_bytes() {
    let mut sock: Sock = SocketData::new();
    let longest: Vec<u8> = vec![b'x'; 512];
    let too_long: Vec<u8> = vec![b'x'; 513];
    assert_eq!(srt_setsockflag(&mut sock, SRT_SOCKOPT::SRTO_STREAMID, Some(&longest), LE), Ok(()));
    assert_eq!(
        srt_setsockflag(&mut sock, SRT_SOCKOPT::SRTO_STREAMID, Some(&too_long), LE),
        Err(OptionError::Rejected(SRT_ERRNO::SRT_EINVPARAM))
    );
    let (bytes, len) = srt_getsockflag(&sock, SRT_SOCKOPT::SRTO_STREAMID, 513, LE).unwrap();
    assert_eq!(len, 512);
    assert_eq!(&bytes[..512], &longest[..]);
    assert_eq!(bytes[512], 0);
}

#[test]
fn a_malformed_stream_identifier_is_an_invalid_parameter() {
    let mut sock: Sock = SocketData::new();
    srt_setsockflag(&mut sock, SRT_SOCKOPT::SRTO_STREAMID, Some(b"kept"), LE).unwrap();
    let malformed: [u8; 3] = [b'a', 0xff, b'b'];
    assert_eq!(
        srt_setsockflag(&mut sock, SRT_SOCKOPT::SRTO_STREAMID, Some(&malformed), LE),
        Err(OptionError::Rejected(SRT_ERRNO::SRT_EINVPARAM))
    );
    assert_eq!(
        srt_setsockflag(&mut sock, SRT_SOCKOPT::SRTO_STREAMID, None, LE),
        Err(OptionError::Rejected(SRT_ERRNO::SRT_EINVPARAM))
    );
    assert_eq!(
        srt_getsockflag(&sock, SRT_SOCKOPT::SRTO_STREAMID, 16, LE),
        Ok((vec![b'k', b'e', b'p', b't', 0], 4))
    );
}

#[test]
fn the_stream_identifier_is_set_only_before_connecting() {
    for mut sock in every_phase() {
        if matches!(sock, SocketData::Initialized(..)) {
            continue;
        }
        assert_eq!(
            srt_setsockflag(&mut sock, SRT_SOCKOPT::SRTO_STREAMID, Some(b"late"), LE),
            Err(OptionError::Rejected(SRT_ERRNO::SRT_ECONNSOCK))
        );
    }
}

#[test]
fn the_stream_identifier_of_a_session_comes_from_its_settings() {
    let sock = established();
    let mut expected: Vec<u8> = b"live/feed".to_vec();
    expected.push(0);
    assert_eq!(srt_getsockflag(&sock, SRT_SOCKOPT::SRTO_STREAMID, 64, LE), Ok((expected, 9)));
    let mut plain = settings();
    plain.stream_id = None;
    let sock: Sock = SocketData::Established(Connected::new("session", plain), api(true, true));
    assert_eq!(srt_getsockflag(&sock, SRT_SOCKOPT::SRTO_STREAMID, 64, LE), Ok((vec![0], 0)));
}

#[test]
fn the_stream_identifier_is_read_only_before_and_after_connecting() {
    for sock in every_phase() {
        let got = srt_getsockflag(&sock, SRT_SOCKOPT::SRTO_STREAMID, 64, LE);
        if matches!(sock, SocketData::Initialized(..)) || matches!(sock, SocketData::Established(..)) {
            assert!(got.is_ok());
        } else {
            assert_eq!(got, Err(OptionError::Rejected(SRT_ERRNO::SRT_EBOUNDSOCK)));
        }
    }
}

#[test]
fn a_session_reports_the_latencies_and_the_rate_it_runs_with() {
    let sock = established();
    assert_eq!(get_int(&sock, SRT_SOCKOPT::SRTO_RCVLATENCY), 250);
    assert_eq!(get_int(&sock, SRT_SOCKOPT::SRTO_PEERLATENCY), 350);
    assert_eq!(
        srt_getsockflag(&sock, SRT_SOCKOPT::SRTO_MININPUTBW, 8, LE),
        Ok((5_000_000i64.to_le_bytes().to_vec(), 8))
    );
    assert_eq!(get_int(&sock, SRT_SOCKOPT::SRTO_RCVSYN), 0);
    assert_eq!(get_int(&sock, SRT_SOCKOPT::SRTO_SNDSYN), 1);
    assert_eq!(
        srt_getsockflag(&sock, SRT_SOCKOPT::SRTO_CONNTIMEO, 4, LE),
        Err(OptionError::Rejected(SRT_ERRNO::SRT_EBOUNDSOCK))
    );
}

#[test]
fn a_session_reports_no_rate_where_its_bandwidth_is_unlimited() {
    let mut unlimited = settings();
    unlimited.bandwidth = LiveBandwidthMode::Unlimited;
    let sock: Sock = SocketData::Established(Connected::new("session", unlimited), api(true, true));
    assert_eq!(srt_getsockflag(&sock, SRT_SOCKOPT::SRTO_MININPUTBW, 8, LE), Ok((vec![0; 8], 8)));
    let mut input = settings();
    input.bandwidth = LiveBandwidthMode::Input { rate: 77, overhead: 10 };
    let sock: Sock = SocketData::Established(Connected::new("session", input), api(true, true));
    assert_eq!(
        srt_getsockflag(&sock, SRT_SOCKOPT::SRTO_MININPUTBW, 8, LE),
        Ok((77i64.to_le_bytes().to_vec(), 8))
    );
}

#[test]
fn a_long_duration_is_cut_to_its_low_32_bits() {
    let mut long = settings();
    long.recv_tsbpd_latency = 0x1_0000_0007;
    long.send_tsbpd_latency = 0xffff_ffff;
    let sock: Sock = SocketData::Established(Connected::new("session", long), api(true, true));
    assert_eq!(get_int(&sock, SRT_SOCKOPT::SRTO_RCVLATENCY), 7);
    assert_eq!(get_int(&sock, SRT_SOCKOPT::SRTO_PEERLATENCY), -1);
}

#[test]
fn pre_connection_options_cannot_be_set_on_a_session() {
    let mut sock = established();
    for opt in [
        SRT_SOCKOPT::SRTO_CONNTIMEO,
        SRT_SOCKOPT::SRTO_RCVLATENCY,
        SRT_SOCKOPT::SRTO_PEERLATENCY,
    ] {
        assert_eq!(
            srt_setsockflag(&mut sock, opt, Some(&10i32.to_le_bytes()), LE),
            Err(OptionError::Rejected(SRT_ERRNO::SRT_ECONNSOCK))
        );
    }
    assert_eq!(
        srt_setsockflag(&mut sock, SRT_SOCKOPT::SRTO_MININPUTBW, Some(&10i64.to_le_bytes()), LE),
        Err(OptionError::Rejected(SRT_ERRNO::SRT_ECONNSOCK))
    );
    assert_eq!(
        srt_setsockflag(&mut sock, SRT_SOCKOPT::SRTO_PASSPHRASE, Some(b"0123456789"), LE),
        Err(OptionError::Rejected(SRT_ERRNO::SRT_ECONNSOCK))
    );
    assert_eq!(get_int(&sock, SRT_SOCKOPT::SRTO_RCVLATENCY), 250);
    assert_eq!(get_int(&sock, SRT_SOCKOPT::SRTO_PEERLATENCY), 350);
    assert_eq!(
        srt_getsockflag(&sock, SRT_SOCKOPT::SRTO_MININPUTBW, 8, LE),
        Ok((5_000_000i64.to_le_bytes().to_vec(), 8))
    );
}

#[test]
fn pre_connection_options_are_set_only_while_initialized() {
    let pre_connection = [
        SRT_SOCKOPT::SRTO_CONNTIMEO,
        SRT_SOCKOPT::SRTO_RCVLATENCY,
        SRT_SOCKOPT::SRTO_PEERLATENCY,
        SRT_SOCKOPT::SRTO_MININPUTBW,
        SRT_SOCKOPT::SRTO_STREAMID,
    ];
    for opt in pre_connection {
        for mut sock in every_phase() {
            if matches!(sock, SocketData::Initialized(..)) {
                continue;
            }
            let before = format!("{:?}", sock);
            for val in [None, Some(&1i32.to_le_bytes()[..]), Some(&1i64.to_le_bytes()[..]), Some(&b"text"[..])] {
                assert_eq!(
                    srt_setsockflag(&mut sock, opt, val, LE),
                    Err(OptionError::Rejected(SRT_ERRNO::SRT_ECONNSOCK))
                );
            }
            assert_eq!(format!("{:?}", sock), before);
        }
    }
    for mut sock in every_phase() {
        if matches!(sock, SocketData::Initialized(..)) || matches!(sock, SocketData::Accepting(..)) {
            continue;
        }
        assert_eq!(
            srt_setsockflag(&mut sock, SRT_SOCKOPT::SRTO_PASSPHRASE, Some(b"0123456789"), LE),
            Err(OptionError::Rejected(SRT_ERRNO::SRT_ECONNSOCK))
        );
    }
}

#[test]
fn an_option_without_a_source_in_this_phase_is_not_read() {
    for sock in every_phase() {
        let initialized = matches!(sock, SocketData::Initialized(..));
        let established = matches!(sock, SocketData::Established(..));
        for opt in [SRT_SOCKOPT::SRTO_RCVLATENCY, SRT_SOCKOPT::SRTO_PEERLATENCY, SRT_SOCKOPT::SRTO_MININPUTBW] {
            let got = srt_getsockflag(&sock, opt, 8, LE);
            if initialized || established {
                assert!(got.is_ok());
            } else {
                assert_eq!(got, Err(OptionError::Rejected(SRT_ERRNO::SRT_EBOUNDSOCK)));
            }
        }
        let got = srt_getsockflag(&sock, SRT_SOCKOPT::SRTO_CONNTIMEO, 4, LE);
        if initialized {
            assert_eq!(got, Ok((3000i32.to_le_bytes().to_vec(), 4)));
        } else {
            assert_eq!(got, Err(OptionError::Rejected(SRT_ERRNO::SRT_EBOUNDSOCK)));
        }
    }
}

#[test]
fn a_flag_is_read_into_any_buffer_that_is_long_enough() {
    let mut sock: Sock = SocketData::new();
    srt_setsockflag(&mut sock, SRT_SOCKOPT::SRTO_SNDSYN, Some(&0i32.to_le_bytes()), LE).unwrap();
    for optlen in [4, 5, 8, 64, i32::MAX] {
        assert_eq!(srt_getsockflag(&sock, SRT_SOCKOPT::SRTO_RCVSYN, optlen, LE), Ok((vec![1, 0, 0, 0], 4)));
        assert_eq!(srt_getsockflag(&sock, SRT_SOCKOPT::SRTO_SNDSYN, optlen, BE), Ok((vec![0, 0, 0, 0], 4)));
        assert_eq!(srt_getsockflag(&sock, SRT_SOCKOPT::SRTO_RCVSYN, optlen, BE), Ok((vec![0, 0, 0, 1], 4)));
    }
    for optlen in [3, 0, -1] {
        assert_eq!(
            srt_getsockflag(&sock, SRT_SOCKOPT::SRTO_RCVSYN, optlen, LE),
            Err(OptionError::Rejected(SRT_ERRNO::SRT_EINVPARAM))
        );
    }
}

#[test]
fn a_refusal_is_reported_with_a_code() {
    let f = OptionError::Rejected(SRT_ERRNO::SRT_ECONNSOCK).failure();
    assert_eq!(f.code, SRT_ERRNO::SRT_ECONNSOCK);
    assert_eq!(f.message, SRT_ERRNO::SRT_ECONNSOCK.describe());
    let f = OptionError::Unimplemented.failure();
    assert_eq!(f.code, SRT_ERRNO::SRT_EINVOP);
    assert_eq!(f.message, "Operation not supported: this option is not implemented");
}

#[test]
fn a_passphrase_has_10_to_79_bytes() {
    let mut sock: Sock = SocketData::new();
    assert!(sock.sock_opts().unwrap().passphrase.is_none());
    assert_eq!(
        srt_setsockflag(&mut sock, SRT_SOCKOPT::SRTO_PASSPHRASE, Some(b"123456789"), LE),
        Err(OptionError::Rejected(SRT_ERRNO::SRT_EINVPARAM))
    );
    assert!(sock.sock_opts().unwrap().passphrase.is_none());
    assert_eq!(srt_setsockflag(&mut sock, SRT_SOCKOPT::SRTO_PASSPHRASE, Some(b"1234567890"), LE), Ok(()));
    assert_eq!(sock.sock_opts().unwrap().passphrase.as_ref().unwrap().as_str(), "1234567890");
    let longest: Vec<u8> = vec![b'p'; 79];
    let too_long: Vec<u8> = vec![b'p'; 80];
    assert_eq!(srt_setsockflag(&mut sock, SRT_SOCKOPT::SRTO_PASSPHRASE, Some(&longest), LE), Ok(()));
    assert_eq!(
        srt_setsockflag(&mut sock, SRT_SOCKOPT::SRTO_PASSPHRASE, Some(&too_long), LE),
        Err(OptionError::Rejected(SRT_ERRNO::SRT_EINVPARAM))
    );
    assert_eq!(sock.sock_opts().unwrap().passphrase.as_ref().unwrap().as_str().len(), 79);
    assert_eq!(
        srt_getsockflag(&sock, SRT_SOCKOPT::SRTO_PASSPHRASE, 128, LE),
        Err(OptionError::Unimplemented)
    );
}

#[test]
fn a_pending_inbound_connection_takes_a_passphrase() {
    let mut sock: Sock = SocketData::Accepting(None);
    assert_eq!(
        srt_setsockflag(&mut sock, SRT_SOCKOPT::SRTO_PASSPHRASE, Some(b"correct horse battery"), LE),
        Ok(())
    );
    match &sock {
        SocketData::Accepting(Some(staged)) => {
            assert_eq!(staged.passphrase.as_str(), "correct horse battery");
            assert_eq!(staged.key_size, KeySize::Unspecified);
        }
        other => panic!("unexpected state {:?}", other),
    }
}

#[test]
fn a_staged_passphrase_keeps_the_key_size_staged_before() {
    let earlier = KeySettings {
        key_size: KeySize::AES256,
        passphrase: Passphrase::try_new(String::from("first passphrase")).unwrap(),
    };
    let mut sock: Sock = SocketData::Accepting(Some(earlier));
    srt_setsockflag(&mut sock, SRT_SOCKOPT::SRTO_PASSPHRASE, Some(b"second passphrase"), LE).unwrap();
    match &sock {
        SocketData::Accepting(Some(staged)) => {
            assert_eq!(staged.passphrase.as_str(), "second passphrase");
            assert_eq!(staged.key_size, KeySize::AES256);
        }
        other => panic!("unexpected state {:?}", other),
    }
    assert_eq!(
        srt_setsockflag(&mut sock, SRT_SOCKOPT::SRTO_PASSPHRASE, Some(b"short"), LE),
        Err(OptionError::Rejected(SRT_ERRNO::SRT_EINVPARAM))
    );
    match &sock {
        SocketData::Accepting(Some(staged)) => assert_eq!(staged.passphrase.as_str(), "second passphrase"),
        other => panic!("unexpected state {:?}", other),
    }
}

#[test]
fn a_pending_inbound_connection_does_not_take_the_receive_latency() {
    let mut sock: Sock = SocketData::Accepting(None);
    assert_eq!(
        srt_setsockflag(&mut sock, SRT_SOCKOPT::SRTO_RCVLATENCY, Some(&500i32.to_le_bytes()), LE),
        Err(OptionError::Rejected(SRT_ERRNO::SRT_ECONNSOCK))
    );
    assert_eq!(
        srt_setsockflag(&mut sock, SRT_SOCKOPT::SRTO_RCVLATENCY, None, LE),
        Err(OptionError::Rejected(SRT_ERRNO::SRT_ECONNSOCK))
    );
    assert!(matches!(sock, SocketData::Accepting(None)));
    assert_eq!(
        srt_getsockflag(&sock, SRT_SOCKOPT::SRTO_RCVLATENCY, 4, LE),
        Err(OptionError::Rejected(SRT_ERRNO::SRT_EBOUNDSOCK))
    );
    let staged = KeySettings {
        key_size: KeySize::AES128,
        passphrase: Passphrase::try_new(String::from("staged passphrase")).unwrap(),
    };
    let mut sock: Sock = SocketData::Accepting(Some(staged));
    assert_eq!(
        srt_setsockflag(&mut sock, SRT_SOCKOPT::SRTO_RCVLATENCY, Some(&500i32.to_le_bytes()), LE),
        Err(OptionError::Rejected(SRT_ERRNO::SRT_ECONNSOCK))
    );
    match &sock {
        SocketData::Accepting(Some(kept)) => {
            assert_eq!(kept.passphrase.as_str(), "staged passphrase");
            assert_eq!(kept.key_size, KeySize::AES128);
        }
        other => panic!("unexpected state {:?}", other),
    }
}

#[test]
fn a_pending_inbound_connection_stores_nothing_but_a_passphrase() {
    for opt in every_option() {
        if opt == SRT_SOCKOPT::SRTO_PASSPHRASE {
            continue;
        }
        let mut sock: Sock = SocketData::Accepting(None);
        let r = srt_setsockflag(&mut sock, opt, Some(&1i32.to_le_bytes()), LE);
        assert!(matches!(sock, SocketData::Accepting(None)));
        if opt == SRT_SOCKOPT::SRTO_SENDER || opt == SRT_SOCKOPT::SRTO_TSBPDMODE {
            assert_eq!(r, Ok(()));
        } else if opt == SRT_SOCKOPT::SRTO_RCVSYN || opt == SRT_SOCKOPT::SRTO_SNDSYN {
            assert_eq!(r, Err(OptionError::Rejected(SRT_ERRNO::SRT_ENOCONN)));
        } else if [
            SRT_SOCKOPT::SRTO_CONNTIMEO,
            SRT_SOCKOPT::SRTO_RCVLATENCY,
            SRT_SOCKOPT::SRTO_PEERLATENCY,
            SRT_SOCKOPT::SRTO_MININPUTBW,
            SRT_SOCKOPT::SRTO_STREAMID,
        ]
        .contains(&opt)
        {
            assert_eq!(r, Err(OptionError::Rejected(SRT_ERRNO::SRT_ECONNSOCK)));
        } else {
            assert_eq!(r, Err(OptionError::Unimplemented));
        }
    }
}

#[test]
fn the_sender_flag_is_accepted_and_ignored() {
    for mut sock in every_phase() {
        let before = format!("{:?}", sock);
        assert_eq!(srt_setsockflag(&mut sock, SRT_SOCKOPT::SRTO_SENDER, None, LE), Ok(()));
        assert_eq!(format!("{:?}", sock), before);
        assert_eq!(
            srt_setsockflag(&mut sock, SRT_SOCKOPT::SRTO_SENDER, Some(&1i32.to_le_bytes()), LE),
            Ok(())
        );
        assert_eq!(
            srt_getsockflag(&sock, SRT_SOCKOPT::SRTO_SENDER, 4, LE),
            Err(OptionError::Unimplemented)
        );
    }
}

#[test]
fn timestamp_based_delivery_can_only_be_switched_on() {
    for mut sock in every_phase() {
        assert_eq!(
            srt_setsockflag(&mut sock, SRT_SOCKOPT::SRTO_TSBPDMODE, Some(&1i32.to_le_bytes()), LE),
            Ok(())
        );
        assert_eq!(
            srt_setsockflag(&mut sock, SRT_SOCKOPT::SRTO_TSBPDMODE, Some(&0i32.to_le_bytes()), LE),
            Err(OptionError::Rejected(SRT_ERRNO::SRT_EINVPARAM))
        );
        assert_eq!(
            srt_setsockflag(&mut sock, SRT_SOCKOPT::SRTO_TSBPDMODE, None, LE),
            Err(OptionError::Rejected(SRT_ERRNO::SRT_EINVPARAM))
        );
    }
}

#[test]
fn setting_an_unknown_option_is_unimplemented() {
    let known = [
        SRT_SOCKOPT::SRTO_SNDSYN,
        SRT_SOCKOPT::SRTO_RCVSYN,
        SRT_SOCKOPT::SRTO_SENDER,
        SRT_SOCKOPT::SRTO_TSBPDMODE,
        SRT_SOCKOPT::SRTO_PASSPHRASE,
        SRT_SOCKOPT::SRTO_CONNTIMEO,
        SRT_SOCKOPT::SRTO_MININPUTBW,
        SRT_SOCKOPT::SRTO_RCVLATENCY,
        SRT_SOCKOPT::SRTO_PEERLATENCY,
        SRT_SOCKOPT::SRTO_STREAMID,
    ];
    let mut tried: usize = 0;
    for opt in every_option() {
        if known.contains(&opt) {
            continue;
        }
        for mut sock in every_phase() {
            for val in [None, Some(&1i32.to_le_bytes()[..]), Some(&1i64.to_le_bytes()[..]), Some(&b"0123456789"[..])] {
                assert_eq!(srt_setsockflag(&mut sock, opt, val, LE), Err(OptionError::Unimplemented));
                tried += 1;
            }
        }
    }
    assert_eq!(tried, 47 * 7 * 4);
}

#[test]
fn reading_an_unknown_option_is_unimplemented() {
    let readable = [
        SRT_SOCKOPT::SRTO_SNDSYN,
        SRT_SOCKOPT::SRTO_RCVSYN,
        SRT_SOCKOPT::SRTO_CONNTIMEO,
        SRT_SOCKOPT::SRTO_MININPUTBW,
        SRT_SOCKOPT::SRTO_RCVLATENCY,
        SRT_SOCKOPT::SRTO_PEERLATENCY,
        SRT_SOCKOPT::SRTO_STREAMID,
    ];
    for opt in every_option() {
        if readable.contains(&opt) {
            continue;
        }
        for sock in every_phase() {
            assert_eq!(srt_getsockflag(&sock, opt, 64, LE), Err(OptionError::Unimplemented));
        }
    }
}

#[test]
fn setting_an_option_keeps_the_phase() {
    for opt in every_option() {
        for mut sock in every_phase() {
            let before = format!("{:?}", sock);
            let before_phase = std::mem::discriminant(&sock);
            let r = srt_setsockflag(&mut sock, opt, Some(&0i32.to_le_bytes()), LE);
            assert_eq!(std::mem::discriminant(&sock), before_phase);
            if r.is_err() {
                assert_eq!(format!("{:?}", sock), before);
            }
        }
    }
}

#[test]
fn option_value_gives_the_typed_value() {
    let sock = established();
    assert!(matches!(option_value(&sock, SRT_SOCKOPT::SRTO_RCVSYN), Ok(Val::Bool(false))));
    assert!(matches!(option_value(&sock, SRT_SOCKOPT::SRTO_SNDSYN), Ok(Val::Bool(true))));
    assert!(matches!(option_value(&sock, SRT_SOCKOPT::SRTO_RCVLATENCY), Ok(Val::Int(250))));
    assert!(matches!(option_value(&sock, SRT_SOCKOPT::SRTO_MININPUTBW), Ok(Val::Int64(5_000_000))));
    match option_value(&sock, SRT_SOCKOPT::SRTO_STREAMID) {
        Ok(Val::Str(s)) => assert_eq!(s, "live/feed"),
        other => panic!("unexpected value {:?}", other),
    }
    assert!(matches!(option_value(&sock, SRT_SOCKOPT::SRTO_MSS), Err(OptionError::Unimplemented)));
}

#[test]
fn a_read_needs_a_buffer_and_its_length() {
    assert_eq!(getsockflag_buffer(true, Some(4)), Ok(4));
    assert_eq!(getsockflag_buffer(true, Some(-3)), Ok(-3));
    assert_eq!(getsockflag_buffer(false, Some(4)), Err(SRT_ERRNO::SRT_EINVPARAM));
    assert_eq!(getsockflag_buffer(true, None), Err(SRT_ERRNO::SRT_EINVPARAM));
    assert_eq!(getsockflag_buffer(false, None), Err(SRT_ERRNO::SRT_EINVPARAM));
}

#[test]
fn the_level_is_not_used() {
    let mut a: Sock = SocketData::new();
    let mut b: Sock = SocketData::new();
    for level in [0, 1, -7] {
        assert_eq!(
            srt_setsockopt(&mut a, level, SRT_SOCKOPT::SRTO_RCVLATENCY, Some(&44i32.to_le_bytes()), LE),
            srt_setsockflag(&mut b, SRT_SOCKOPT::SRTO_RCVLATENCY, Some(&44i32.to_le_bytes()), LE)
        );
        assert_eq!(
            srt_getsockopt(&a, level, SRT_SOCKOPT::SRTO_RCVLATENCY, 4, LE),
            srt_getsockflag(&b, SRT_SOCKOPT::SRTO_RCVLATENCY, 4, LE)
        );
        assert_eq!(
            srt_setsockopt(&mut a, level, SRT_SOCKOPT::SRTO_MSS, None, LE),
            Err(OptionError::Unimplemented)
        );
    }
    assert_eq!(get_int(&a, SRT_SOCKOPT::SRTO_RCVLATENCY), 44);
}

#[test]
fn stream_id_and_passphrase_bounds() {
    assert!(StreamId::try_new(String::new()).is_some());
    assert!(StreamId::try_new("x".repeat(512)).is_some());
    assert!(StreamId::try_new("x".repeat(513)).is_none());
    assert!(StreamId::try_new("é".repeat(256)).is_some());
    assert!(StreamId::try_new("é".repeat(257)).is_none());
    assert_eq!(StreamId::try_new(String::from("abc")).unwrap().as_str(), "abc");
    assert!(Passphrase::try_new(String::new()).is_none());
    assert!(Passphrase::try_new("p".repeat(9)).is_none());
    assert!(Passphrase::try_new("p".repeat(10)).is_some());
    assert!(Passphrase::try_new("é".repeat(5)).is_some());
    assert!(Passphrase::try_new("p".repeat(79)).is_some());
    assert!(Passphrase::try_new("p".repeat(80)).is_none());
    assert!(Passphrase::try_new("é".repeat(40)).is_none());
}
