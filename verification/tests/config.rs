use pg_connect::{ChannelBinding, Config, ConfigError, ConnectError, ErrorKind, Host, TargetSessionAttrs};

fn configuration(hosts: usize, ports: usize) -> Config {
    Config {
        host: (0..hosts).map(|i| Host::Tcp(format!("host{}", i))).collect(),
        port: (0..ports).map(|i| 5432 + i as u16).collect(),
        target_session_attrs: TargetSessionAttrs::Any,
    }
}

#[test]
fn validate_refuses_an_empty_host_list() {
    assert_eq!(configuration(0, 0).validate(), Err(ConfigError::HostMissing));
    assert_eq!(configuration(0, 1).validate(), Err(ConfigError::HostMissing));
    assert_eq!(configuration(0, 3).validate(), Err(ConfigError::HostMissing));
}

#[test]
fn validate_refuses_ports_that_do_not_match_the_hosts() {
    assert_eq!(configuration(1, 2).validate(), Err(ConfigError::InvalidPortCount));
    assert_eq!(configuration(3, 2).validate(), Err(ConfigError::InvalidPortCount));
    assert_eq!(configuration(2, 5).validate(), Err(ConfigError::InvalidPortCount));
}

#[test]
fn validate_accepts_no_port_one_port_and_one_port_for_each_host() {
    assert_eq!(configuration(1, 0).validate(), Ok(()));
    assert_eq!(configuration(4, 0).validate(), Ok(()));
    assert_eq!(configuration(1, 1).validate(), Ok(()));
    assert_eq!(configuration(4, 1).validate(), Ok(()));
    assert_eq!(configuration(2, 2).validate(), Ok(()));
    assert_eq!(configuration(4, 4).validate(), Ok(()));
}

#[test]
fn config_error_messages() {
    assert_eq!(ConfigError::HostMissing.message(), "host missing");
    assert_eq!(ConfigError::InvalidPortCount.message(), "invalid number of ports");
}

#[test]
fn kind_of_each_error() {
    assert_eq!(ConnectError::<u8>::Config(ConfigError::HostMissing).kind(), ErrorKind::Config);
    assert_eq!(ConnectError::SecurityFactory(0u8).kind(), ErrorKind::SecurityFactory);
    assert_eq!(ConnectError::Transport(0u8).kind(), ErrorKind::Transport);
    assert_eq!(ConnectError::Handshake(0u8).kind(), ErrorKind::Handshake);
    assert_eq!(ConnectError::Protocol(0u8).kind(), ErrorKind::Protocol);
    assert_eq!(ConnectError::<u8>::UnexpectedMessage.kind(), ErrorKind::Protocol);
    assert_eq!(ConnectError::<u8>::PermissionDenied.kind(), ErrorKind::Permission);
}

#[test]
fn cause_of_each_error() {
    assert_eq!(ConnectError::<u8>::Config(ConfigError::InvalidPortCount).into_cause(), None);
    assert_eq!(ConnectError::SecurityFactory(1u8).into_cause(), Some(1));
    assert_eq!(ConnectError::Transport(2u8).into_cause(), Some(2));
    assert_eq!(ConnectError::Handshake(3u8).into_cause(), Some(3));
    assert_eq!(ConnectError::Protocol(4u8).into_cause(), Some(4));
    assert_eq!(ConnectError::<u8>::UnexpectedMessage.into_cause(), None);
    assert_eq!(ConnectError::<u8>::PermissionDenied.into_cause(), None);
}

#[test]
fn channel_binding_holds_its_bytes() {
    assert_eq!(ChannelBinding::none().into_bytes(), None);
    assert_eq!(
        ChannelBinding::tls_server_end_point(vec![0xde, 0xad]).into_bytes(),
        Some(vec![0xde, 0xad])
    );
    assert_eq!(ChannelBinding::tls_server_end_point(vec![]).into_bytes(), Some(vec![]));
    assert_ne!(ChannelBinding::tls_server_end_point(vec![]), ChannelBinding::none());
}
