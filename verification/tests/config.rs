use infernal_taskmaster_simple::config::{
    Config, ConnectStage, EnrolledInstance, EnrollmentVariables, Environment, Startup, TokenStage,
};
use infernal_taskmaster_simple::error::TaskmasterError;

const SERVICE_ID: &str = "550e8400-e29b-41d4-a716-446655440000";
const SERVICE_ID_VALUE: u128 = 0x550e8400_e29b_41d4_a716_446655440000;

fn set(value: &str) -> Option<String> {
    Some(value.to_owned())
}

fn plain() -> Environment {
    Environment {
        kernel_authority: set("kernel.example.test"),
        taskmaster_service_id: set(SERVICE_ID),
        claim_lease_seconds: None,
        poll_interval_seconds: None,
        kernel_ca_cert_path: None,
        enrollment: EnrollmentVariables {
            enrollment_challenge: None,
            service_endpoint: None,
            pod_uid: None,
            workload_token_path: None,
        },
    }
}

fn enrolling() -> Environment {
    Environment {
        enrollment: EnrollmentVariables {
            enrollment_challenge: set("AAECAwQFBgcICQoLDA0ODxAREhMUFRYXGBkaGxwdHh8"),
            service_endpoint: set("https://me.example.test"),
            pod_uid: set("pod-1"),
            workload_token_path: None,
        },
        ..plain()
    }
}

fn connecting(environment: Environment) -> ConnectStage {
    match Config::from_env(environment) {
        Startup::Connect(stage) => stage,
        _ => panic!("expected to connect"),
    }
}

fn awaiting_token(environment: Environment) -> TokenStage {
    match connecting(environment).connected(Ok(())) {
        Startup::ReadWorkloadToken(stage) => stage,
        _ => panic!("expected to read the token"),
    }
}

fn failure(startup: Startup) -> TaskmasterError {
    match startup {
        Startup::Failed(error) => error,
        _ => panic!("expected a failure"),
    }
}

fn ready(startup: Startup) -> Config {
    match startup {
        Startup::Ready(config) => config,
        _ => panic!("expected a configuration"),
    }
}

#[test]
fn the_kernel_authority_is_required() {
    let environment = Environment {
        kernel_authority: None,
        taskmaster_service_id: None,
        ..plain()
    };

    assert_eq!(
        failure(Config::from_env(environment)),
        TaskmasterError::MissingEnv("KERNEL_AUTHORITY")
    );
}

#[test]
fn the_service_id_is_required() {
    let environment = Environment {
        taskmaster_service_id: None,
        ..plain()
    };

    assert_eq!(
        failure(Config::from_env(environment)),
        TaskmasterError::MissingEnv("TASKMASTER_SERVICE_ID")
    );
}

#[test]
fn the_service_id_must_be_a_uuid() {
    let environment = Environment {
        taskmaster_service_id: set("taskmaster"),
        ..plain()
    };

    assert_eq!(
        failure(Config::from_env(environment)),
        TaskmasterError::InvalidServiceId
    );
}

#[test]
fn the_defaults_are_five_minutes_and_five_seconds() {
    let config = ready(connecting(plain()).connected(Ok(())));

    assert_eq!(config.lease_seconds, 300);
    assert_eq!(config.poll_interval_seconds, 5);
    assert_eq!(config.client.authority, "kernel.example.test");
    assert_eq!(config.client.service_id, SERVICE_ID_VALUE);
    assert_eq!(config.client.extra_root_certificate_pem, None);
    assert!(config.instance_lease.is_none());
}

#[test]
fn the_intervals_can_be_set() {
    let cases: [(&str, i64, &str, u64); 8] = [
        ("60", 60, "1", 1),
        ("+60", 60, "+1", 1),
        ("-60", -60, "-1", 5),
        ("007", 7, "0", 0),
        (
            "9223372036854775807",
            i64::MAX,
            "18446744073709551615",
            u64::MAX,
        ),
        (
            "-9223372036854775808",
            i64::MIN,
            "18446744073709551616",
            5,
        ),
        ("9223372036854775808", 300, "1_000", 5),
        (" 60", 300, "-0", 5),
    ];
    for (lease, lease_seconds, poll, poll_interval_seconds) in cases {
        let environment = Environment {
            claim_lease_seconds: set(lease),
            poll_interval_seconds: set(poll),
            ..plain()
        };
        let config = ready(connecting(environment).connected(Ok(())));
        assert_eq!(config.lease_seconds, lease_seconds);
        assert_eq!(config.poll_interval_seconds, poll_interval_seconds);
    }
}

#[test]
fn an_interval_that_is_no_number_falls_back_to_its_default() {
    for text in ["", "+", "-", "five", "5s", "5.0", "0x5", "5 ", "\u{0665}"] {
        let environment = Environment {
            claim_lease_seconds: set(text),
            poll_interval_seconds: set(text),
            ..plain()
        };
        let config = ready(connecting(environment).connected(Ok(())));
        assert_eq!(config.lease_seconds, 300);
        assert_eq!(config.poll_interval_seconds, 5);
    }
}

#[test]
fn a_certificate_is_read_where_one_is_named() {
    let environment = Environment {
        kernel_ca_cert_path: set("/etc/ca.pem"),
        ..plain()
    };
    let stage = match Config::from_env(environment) {
        Startup::ReadCaCertificate(stage) => stage,
        _ => panic!("expected to read the certificate"),
    };
    assert_eq!(stage.path, "/etc/ca.pem");

    let stage = match stage.certificate_read(Ok(b"pem".to_vec())) {
        Startup::Connect(stage) => stage,
        _ => panic!("expected to connect"),
    };

    assert_eq!(
        stage.client.extra_root_certificate_pem,
        Some(b"pem".to_vec())
    );
    let config = ready(stage.connected(Ok(())));
    assert_eq!(config.client.authority, "kernel.example.test");
    assert_eq!(config.client.service_id, SERVICE_ID_VALUE);
}

#[test]
fn an_unreadable_certificate_ends_startup() {
    let environment = Environment {
        kernel_ca_cert_path: set("/etc/ca.pem"),
        ..enrolling()
    };
    let stage = match Config::from_env(environment) {
        Startup::ReadCaCertificate(stage) => stage,
        _ => panic!("expected to read the certificate"),
    };

    assert_eq!(
        failure(stage.certificate_read(Err("no such file".to_owned()))),
        TaskmasterError::CaCertificateUnreadable("no such file".to_owned())
    );
}

#[test]
fn a_transport_that_cannot_be_opened_ends_startup() {
    assert_eq!(
        failure(connecting(plain()).connected(Err("no roots".to_owned()))),
        TaskmasterError::Client("no roots".to_owned())
    );
}

#[test]
fn an_enrolling_process_needs_its_endpoint_and_its_pod() {
    let mut environment = enrolling();
    environment.enrollment.service_endpoint = None;
    environment.enrollment.pod_uid = None;
    assert_eq!(
        failure(connecting(environment).connected(Ok(()))),
        TaskmasterError::MissingEnv("SERVICE_ENDPOINT")
    );

    let mut environment = enrolling();
    environment.enrollment.pod_uid = None;
    assert_eq!(
        failure(connecting(environment).connected(Ok(()))),
        TaskmasterError::MissingEnv("POD_UID")
    );
}

#[test]
fn the_enrollment_variables_do_not_matter_without_a_challenge() {
    let mut environment = enrolling();
    environment.enrollment.enrollment_challenge = None;
    environment.enrollment.pod_uid = None;

    let config = ready(connecting(environment).connected(Ok(())));

    assert!(config.instance_lease.is_none());
}

#[test]
fn the_token_path_has_a_default() {
    assert_eq!(
        awaiting_token(enrolling()).path,
        "/var/run/secrets/infernal-law-enrollment/token"
    );

    let mut environment = enrolling();
    environment.enrollment.workload_token_path = set("/tmp/token");
    assert_eq!(awaiting_token(environment).path, "/tmp/token");
}

#[test]
fn an_unreadable_token_ends_startup_before_the_challenge_is_looked_at() {
    let mut environment = enrolling();
    environment.enrollment.enrollment_challenge = set("?");

    assert_eq!(
        failure(awaiting_token(environment).token_read(Err("denied".to_owned()))),
        TaskmasterError::EnrollmentTokenUnreadable("denied".to_owned())
    );
}

#[test]
fn a_bad_challenge_ends_startup() {
    let mut environment = enrolling();
    environment.enrollment.enrollment_challenge = set("?");

    assert_eq!(
        failure(awaiting_token(environment).token_read(Ok("token".to_owned()))),
        TaskmasterError::InvalidEnrollmentChallenge
    );
}

#[test]
fn the_enrollment_carries_the_trimmed_token_and_the_decoded_challenge() {
    let stage = awaiting_token(enrolling());
    let stage = match stage.token_read(Ok("\u{a0} \tto ken\r\n\u{3000}".to_owned())) {
        Startup::Enroll(stage) => stage,
        _ => panic!("expected to enroll"),
    };

    let expected: Vec<u8> = (0..32).collect();
    assert_eq!(stage.call.challenge.to_vec(), expected);
    assert_eq!(stage.call.workload_token, "to ken");
    assert_eq!(stage.call.base_url, "https://kernel.example.test");
    assert_eq!(stage.call.endpoint, "https://me.example.test");
    assert_eq!(stage.call.pod_uid, "pod-1");
}

#[test]
fn every_white_space_character_is_trimmed_and_no_other() {
    for code in 0..0x3100 {
        if let Some(c) = char::from_u32(code) {
            let stage = awaiting_token(enrolling());
            let stage = match stage.token_read(Ok(format!("{c}x{c}"))) {
                Startup::Enroll(stage) => stage,
                _ => panic!("expected to enroll"),
            };
            let white = matches!(
                code,
                0x9..=0xd
                    | 0x20
                    | 0x85
                    | 0xa0
                    | 0x1680
                    | 0x2000..=0x200a
                    | 0x2028
                    | 0x2029
                    | 0x202f
                    | 0x205f
                    | 0x3000
            );
            assert_eq!(stage.call.workload_token == "x", white);
        }
    }
}

#[test]
fn an_enrolled_process_holds_the_lease_it_was_granted() {
    let stage = awaiting_token(enrolling());
    let stage = match stage.token_read(Ok("token".to_owned())) {
        Startup::Enroll(stage) => stage,
        _ => panic!("expected to enroll"),
    };

    let config = ready(stage.enrolled(Ok(EnrolledInstance {
        lease_revision: 1,
        lease_expires_at: 60,
    })));

    let lease = config.instance_lease.unwrap();
    assert_eq!(lease.revision, 1);
    assert_eq!(lease.expires_at, 60);
    assert_eq!(config.lease_seconds, 300);
    assert_eq!(config.poll_interval_seconds, 5);
}

#[test]
fn a_refused_enrollment_ends_startup() {
    let stage = awaiting_token(enrolling());
    let stage = match stage.token_read(Ok("token".to_owned())) {
        Startup::Enroll(stage) => stage,
        _ => panic!("expected to enroll"),
    };

    assert_eq!(
        failure(stage.enrolled(Err("challenge expired".to_owned()))),
        TaskmasterError::Client("challenge expired".to_owned())
    );
}
