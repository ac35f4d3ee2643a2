use mullvad_cli::access_method::AccessMethodDescriptor;
use mullvad_cli::access_method::Credentials;
use mullvad_cli::access_method::IpAddress;
use mullvad_cli::access_method::ValidationError;
use mullvad_cli::access_method::build_shadowsocks;
use mullvad_cli::access_method::build_socks5_local;
use mullvad_cli::access_method::build_socks5_remote;
use mullvad_cli::access_method::is_supported_cipher;

#[test]
fn socks5_local_transcribes_fields() {
    let d = build_socks5_local(1080, IpAddress::V4(10, 0, 0, 1), 443);
    assert_eq!(
        d,
        AccessMethodDescriptor::Socks5Local {
            local_port: 1080,
            remote_ip: IpAddress::V4(10, 0, 0, 1),
            remote_port: 443,
        }
    );
}

#[test]
fn socks5_local_port_extremes() {
    let d = build_socks5_local(0, IpAddress::V6(0, 0, 0, 0, 0, 0, 0, 1), 65535);
    assert_eq!(
        d,
        AccessMethodDescriptor::Socks5Local {
            local_port: 0,
            remote_ip: IpAddress::V6(0, 0, 0, 0, 0, 0, 0, 1),
            remote_port: 65535,
        }
    );
}

#[test]
fn socks5_remote_username_without_password_fails() {
    let r = build_socks5_remote(
        IpAddress::V4(203, 0, 113, 5),
        1080,
        Some(String::from("u")),
        None,
    );
    assert_eq!(r, Err(ValidationError::IncompleteCredentials));
}

#[test]
fn socks5_remote_password_without_username_fails() {
    let r = build_socks5_remote(
        IpAddress::V4(203, 0, 113, 5),
        1080,
        None,
        Some(String::from("secret")),
    );
    assert_eq!(r, Err(ValidationError::IncompleteCredentials));
}

#[test]
fn socks5_remote_without_credentials_succeeds() {
    let r = build_socks5_remote(IpAddress::V4(203, 0, 113, 5), 1080, None, None);
    assert_eq!(
        r,
        Ok(AccessMethodDescriptor::Socks5Remote {
            remote_ip: IpAddress::V4(203, 0, 113, 5),
            remote_port: 1080,
            credentials: None,
        })
    );
}

#[test]
fn socks5_remote_with_both_credentials_succeeds() {
    let r = build_socks5_remote(
        IpAddress::V4(203, 0, 113, 5),
        1080,
        Some(String::from("u")),
        Some(String::from("secret")),
    );
    assert_eq!(
        r,
        Ok(AccessMethodDescriptor::Socks5Remote {
            remote_ip: IpAddress::V4(203, 0, 113, 5),
            remote_port: 1080,
            credentials: Some(Credentials {
                username: String::from("u"),
                password: String::from("secret"),
            }),
        })
    );
}

#[test]
fn shadowsocks_defaults_applied() {
    let r = build_shadowsocks(IpAddress::V4(203, 0, 113, 5), None, None, None);
    assert_eq!(
        r,
        Ok(AccessMethodDescriptor::Shadowsocks {
            remote_ip: IpAddress::V4(203, 0, 113, 5),
            remote_port: 443,
            password: String::from("mullvad"),
            cipher: String::from("aes-256-gcm"),
        })
    );
}

#[test]
fn shadowsocks_defaulting_idempotent() {
    let implicit = build_shadowsocks(IpAddress::V4(203, 0, 113, 5), None, None, None);
    let explicit = build_shadowsocks(
        IpAddress::V4(203, 0, 113, 5),
        Some(443),
        Some(String::from("mullvad")),
        Some(String::from("aes-256-gcm")),
    );
    assert_eq!(implicit, explicit);
}

#[test]
fn shadowsocks_supported_cipher_kept() {
    let r = build_shadowsocks(
        IpAddress::V4(203, 0, 113, 5),
        None,
        None,
        Some(String::from("chacha20-ietf-poly1305")),
    );
    assert_eq!(
        r,
        Ok(AccessMethodDescriptor::Shadowsocks {
            remote_ip: IpAddress::V4(203, 0, 113, 5),
            remote_port: 443,
            password: String::from("mullvad"),
            cipher: String::from("chacha20-ietf-poly1305"),
        })
    );
}

#[test]
fn shadowsocks_unsupported_cipher_fails_with_name() {
    let r = build_shadowsocks(
        IpAddress::V4(203, 0, 113, 5),
        None,
        None,
        Some(String::from("rot13")),
    );
    assert_eq!(
        r,
        Err(ValidationError::UnsupportedCipher(String::from("rot13")))
    );
}

#[test]
fn shadowsocks_explicit_fields_kept() {
    let r = build_shadowsocks(
        IpAddress::V4(192, 0, 2, 1),
        Some(8388),
        Some(String::from("hunter2")),
        Some(String::from("aes-128-gcm")),
    );
    assert_eq!(
        r,
        Ok(AccessMethodDescriptor::Shadowsocks {
            remote_ip: IpAddress::V4(192, 0, 2, 1),
            remote_port: 8388,
            password: String::from("hunter2"),
            cipher: String::from("aes-128-gcm"),
        })
    );
}

#[test]
fn every_supported_cipher_accepted() {
    let supported = [
        "aes-128-cfb",
        "aes-128-cfb1",
        "aes-128-cfb8",
        "aes-128-cfb128",
        "aes-256-cfb",
        "aes-256-cfb1",
        "aes-256-cfb8",
        "aes-256-cfb128",
        "rc4",
        "rc4-md5",
        "aes-128-gcm",
        "aes-256-gcm",
        "chacha20-ietf-poly1305",
    ];
    for name in supported {
        assert!(is_supported_cipher(name));
        let r = build_shadowsocks(
            IpAddress::V4(203, 0, 113, 5),
            None,
            None,
            Some(String::from(name)),
        );
        match r {
            Ok(AccessMethodDescriptor::Shadowsocks { cipher, .. }) => assert_eq!(cipher, name),
            other => panic!("cipher {name} should be accepted, got {other:?}"),
        }
    }
}

#[test]
fn unsupported_cipher_names_rejected() {
    for name in ["", "rot13", "AES-256-GCM", "aes-256-gcm ", "xchacha20"] {
        assert!(!is_supported_cipher(name));
        let r = build_shadowsocks(
            IpAddress::V4(203, 0, 113, 5),
            None,
            None,
            Some(String::from(name)),
        );
        assert_eq!(
            r,
            Err(ValidationError::UnsupportedCipher(String::from(name)))
        );
    }
}
