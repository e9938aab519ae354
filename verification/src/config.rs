//! From environment variables to a running configuration. Starting up takes
//! files and kernel calls as well as variables, so it goes in stages: each
//! stage names the one thing it needs done, and what came of that decides the
//! next stage.

use vstd::prelude::*;

use crate::challenge::decode_challenge;
use crate::error::TaskmasterError;
use crate::identity::parse_service_id;
use crate::instance_lease::InstanceLease;
use crate::kernel_client::{EnrollmentCall, KernelClient};
use crate::numbers::{parse_i64, parse_u64};
use crate::text::trim;

verus! {

/// The kernel's host and, if needed, port. Required.
pub const KERNEL_AUTHORITY_ENV: &'static str = "KERNEL_AUTHORITY";

/// This service's own identity, a UUID. Required.
pub const TASKMASTER_SERVICE_ID_ENV: &'static str = "TASKMASTER_SERVICE_ID";

/// The lease proposed with each claim.
pub const CLAIM_LEASE_SECONDS_ENV: &'static str = "CLAIM_LEASE_SECONDS";

/// How often to poll for eligible routes.
pub const POLL_INTERVAL_SECONDS_ENV: &'static str = "POLL_INTERVAL_SECONDS";

/// Path to a PEM certificate authority to trust besides the public ones.
pub const KERNEL_CA_CERT_PATH_ENV: &'static str = "KERNEL_CA_CERT_PATH";

/// An enrollment challenge from the kernel's operator. Where it is set this
/// process enrolls itself, and `SERVICE_ENDPOINT` and `POD_UID` are required.
pub const ENROLLMENT_CHALLENGE_ENV: &'static str = "ENROLLMENT_CHALLENGE";

/// This process's own HTTPS endpoint, recorded by the kernel at enrollment.
pub const SERVICE_ENDPOINT_ENV: &'static str = "SERVICE_ENDPOINT";

/// This Pod's own UID, which the workload token is bound to.
pub const POD_UID_ENV: &'static str = "POD_UID";

/// Path to this Pod's projected enrollment token.
pub const WORKLOAD_TOKEN_PATH_ENV: &'static str = "WORKLOAD_TOKEN_PATH";

pub const DEFAULT_WORKLOAD_TOKEN_PATH: &'static str =
    "/var/run/secrets/infernal-law-enrollment/token";

pub const DEFAULT_LEASE_SECONDS: i64 = 300;

pub const DEFAULT_POLL_INTERVAL_SECONDS: u64 = 5;

/// The environment variables this service reads; `None` where one is unset
/// or not text.
pub struct Environment {
    pub kernel_authority: Option<String>,
    pub taskmaster_service_id: Option<String>,
    pub claim_lease_seconds: Option<String>,
    pub poll_interval_seconds: Option<String>,
    pub kernel_ca_cert_path: Option<String>,
    pub enrollment: EnrollmentVariables,
}

/// The variables that only an enrolling process needs.
pub struct EnrollmentVariables {
    pub enrollment_challenge: Option<String>,
    pub service_endpoint: Option<String>,
    pub pod_uid: Option<String>,
    pub workload_token_path: Option<String>,
}

/// The two intervals the scheduling loop runs by.
#[derive(Clone, Copy, Debug)]
pub struct Intervals {
    pub lease_seconds: i64,
    pub poll_interval_seconds: u64,
}

/// A configuration the scheduling loop can run on.
pub struct Config {
    pub client: KernelClient,
    pub lease_seconds: i64,
    pub poll_interval_seconds: u64,
    /// This process's own lease, where it enrolled itself at startup. A
    /// process enrolled some other way cannot learn its lease and has none
    /// here.
    pub instance_lease: Option<InstanceLease>,
}

/// What the kernel says of an instance it has just enrolled.
#[derive(Clone, Copy, Debug, Eq, PartialEq)]
pub struct EnrolledInstance {
    pub lease_revision: i64,
    pub lease_expires_at: i64,
}

/// Needs the certificate authority at `path` read.
pub struct CaCertificateStage {
    pub path: String,
    pub service_id: u128,
    pub authority: String,
    pub intervals: Intervals,
    pub enrollment: EnrollmentVariables,
}

/// Needs the transport of `client` opened.
pub struct ConnectStage {
    pub client: KernelClient,
    pub intervals: Intervals,
    pub enrollment: EnrollmentVariables,
}

/// Needs the workload token at `path` read.
pub struct TokenStage {
    pub path: String,
    pub challenge: String,
    pub endpoint: String,
    pub pod_uid: String,
    pub client: KernelClient,
    pub intervals: Intervals,
}

/// Needs `call` signed and submitted.
pub struct EnrollStage {
    pub call: EnrollmentCall,
    pub client: KernelClient,
    pub intervals: Intervals,
}

/// How far startup has come.
pub enum Startup {
    ReadCaCertificate(CaCertificateStage),
    Connect(ConnectStage),
    ReadWorkloadToken(TokenStage),
    Enroll(EnrollStage),
    Ready(Config),
    Failed(TaskmasterError),
}

/// The number a variable sets, and the default where it is unset or no
/// number.
pub open spec fn lease_seconds_of(variable: Option<String>) -> i64 {
    match variable {
        Some(text) => match crate::numbers::i64_value(text@) {
            Some(value) => value,
            None => DEFAULT_LEASE_SECONDS,
        },
        None => DEFAULT_LEASE_SECONDS,
    }
}

/// The number a variable sets, and the default where it is unset or no
/// number.
pub open spec fn poll_interval_of(variable: Option<String>) -> u64 {
    match variable {
        Some(text) => match crate::numbers::u64_value(text@) {
            Some(value) => value,
            None => DEFAULT_POLL_INTERVAL_SECONDS,
        },
        None => DEFAULT_POLL_INTERVAL_SECONDS,
    }
}

pub open spec fn intervals_of(environment: Environment) -> Intervals {
    Intervals {
        lease_seconds: lease_seconds_of(environment.claim_lease_seconds),
        poll_interval_seconds: poll_interval_of(environment.poll_interval_seconds),
    }
}

/// Where the workload token stands: the path that is set, or the default.
pub open spec fn token_path_of(variable: Option<String>) -> Seq<char> {
    match variable {
        Some(path) => path@,
        None => DEFAULT_WORKLOAD_TOKEN_PATH@,
    }
}

/// `text` is the base64url form of a full-length challenge.
pub open spec fn is_challenge_text(text: Seq<char>) -> bool {
    exists|bytes: Seq<u8>|
        bytes.len() == crate::challenge::CHALLENGE_LENGTH && #[trigger]
            crate::challenge::base64url(bytes) == text
}

/// Why the variables that every process needs are not enough; `None` where
/// they are.
pub open spec fn service_error(environment: Environment) -> Option<TaskmasterError> {
    if environment.kernel_authority is None {
        Some(TaskmasterError::MissingEnv(KERNEL_AUTHORITY_ENV))
    } else if environment.taskmaster_service_id is None {
        Some(TaskmasterError::MissingEnv(TASKMASTER_SERVICE_ID_ENV))
    } else if crate::identity::uuid_value(environment.taskmaster_service_id->0@) is None {
        Some(TaskmasterError::InvalidServiceId)
    } else {
        None
    }
}

/// Why the variables that an enrolling process needs are not enough; `None`
/// where they are.
pub open spec fn enrollment_error(variables: EnrollmentVariables) -> Option<TaskmasterError> {
    if variables.service_endpoint is None {
        Some(TaskmasterError::MissingEnv(SERVICE_ENDPOINT_ENV))
    } else if variables.pod_uid is None {
        Some(TaskmasterError::MissingEnv(POD_UID_ENV))
    } else {
        None
    }
}

/// The identity that the environment names, where it names one.
pub open spec fn service_id_of(environment: Environment) -> u128 {
    crate::identity::uuid_value(environment.taskmaster_service_id->0@)->0 as u128
}

/// The first stage for an environment.
pub open spec fn first_stage(environment: Environment) -> Startup {
    match service_error(environment) {
        Some(error) => Startup::Failed(error),
        None => match environment.kernel_ca_cert_path {
            Some(path) => Startup::ReadCaCertificate(
                CaCertificateStage {
                    path,
                    service_id: service_id_of(environment),
                    authority: environment.kernel_authority->0,
                    intervals: intervals_of(environment),
                    enrollment: environment.enrollment,
                },
            ),
            None => Startup::Connect(
                ConnectStage {
                    client: KernelClient {
                        service_id: service_id_of(environment),
                        authority: environment.kernel_authority->0,
                        extra_root_certificate_pem: None,
                    },
                    intervals: intervals_of(environment),
                    enrollment: environment.enrollment,
                },
            ),
        },
    }
}

/// The lease proposed with each claim, as the environment sets it.
fn lease_seconds_from(variable: &Option<String>) -> (seconds: i64)
    ensures
        seconds == lease_seconds_of(*variable),
{
    match variable {
        Some(text) => match parse_i64(text.as_str()) {
            Some(value) => value,
            None => DEFAULT_LEASE_SECONDS,
        },
        None => DEFAULT_LEASE_SECONDS,
    }
}

/// The polling interval, as the environment sets it.
fn poll_interval_from(variable: &Option<String>) -> (seconds: u64)
    ensures
        seconds == poll_interval_of(*variable),
{
    match variable {
        Some(text) => match parse_u64(text.as_str()) {
            Some(value) => value,
            None => DEFAULT_POLL_INTERVAL_SECONDS,
        },
        None => DEFAULT_POLL_INTERVAL_SECONDS,
    }
}

impl Config {
    /// Starts from the environment: who this service is, which kernel it
    /// talks to and at what intervals. The stage returned says what has to be
    /// done before there is a configuration, if anything.
    pub fn from_env(environment: Environment) -> (startup: Startup)
        ensures
            startup == first_stage(environment),
    {
        let intervals = Intervals {
            lease_seconds: lease_seconds_from(&environment.claim_lease_seconds),
            poll_interval_seconds: poll_interval_from(&environment.poll_interval_seconds),
        };
        let authority: String = match environment.kernel_authority {
            Some(authority) => authority,
            None => return Startup::Failed(TaskmasterError::MissingEnv(KERNEL_AUTHORITY_ENV)),
        };
        let service_id: u128 = match environment.taskmaster_service_id {
            Some(text) => match parse_service_id(text.as_str()) {
                Ok(service_id) => service_id,
                Err(error) => return Startup::Failed(error),
            },
            None => return Startup::Failed(
                TaskmasterError::MissingEnv(TASKMASTER_SERVICE_ID_ENV),
            ),
        };
        let enrollment = environment.enrollment;
        match environment.kernel_ca_cert_path {
            Some(path) => Startup::ReadCaCertificate(
                CaCertificateStage { path, service_id, authority, intervals, enrollment },
            ),
            None => Startup::Connect(
                ConnectStage {
                    client: KernelClient::new(service_id, authority),
                    intervals,
                    enrollment,
                },
            ),
        }
    }
}

impl CaCertificateStage {
    /// The stage after the certificate was read, or could not be.
    pub open spec fn next(self, read: Result<Vec<u8>, String>) -> Startup {
        match read {
            Ok(pem) => Startup::Connect(
                ConnectStage {
                    client: KernelClient {
                        service_id: self.service_id,
                        authority: self.authority,
                        extra_root_certificate_pem: Some(pem),
                    },
                    intervals: self.intervals,
                    enrollment: self.enrollment,
                },
            ),
            Err(reason) => Startup::Failed(TaskmasterError::CaCertificateUnreadable(reason)),
        }
    }

    /// Takes in the certificate, or why it could not be read.
    pub fn certificate_read(self, read: Result<Vec<u8>, String>) -> (startup: Startup)
        ensures
            startup == self.next(read),
    {
        match read {
            Ok(pem) => Startup::Connect(
                ConnectStage {
                    client: KernelClient::with_extra_root_certificate(
                        self.service_id,
                        self.authority,
                        pem,
                    ),
                    intervals: self.intervals,
                    enrollment: self.enrollment,
                },
            ),
            Err(reason) => Startup::Failed(TaskmasterError::CaCertificateUnreadable(reason)),
        }
    }
}

impl ConnectStage {
    /// `startup` is the stage after the transport was opened, or could not
    /// be. Without a challenge there is nothing left to do.
    pub open spec fn leads_to(self, opened: Result<(), String>, startup: Startup) -> bool {
        match opened {
            Err(reason) => startup == Startup::Failed(TaskmasterError::Client(reason)),
            Ok(_) => match self.enrollment.enrollment_challenge {
                None => startup == Startup::Ready(
                    Config {
                        client: self.client,
                        lease_seconds: self.intervals.lease_seconds,
                        poll_interval_seconds: self.intervals.poll_interval_seconds,
                        instance_lease: None,
                    },
                ),
                Some(challenge) => match enrollment_error(self.enrollment) {
                    Some(error) => startup == Startup::Failed(error),
                    None => {
                        &&& startup matches Startup::ReadWorkloadToken(stage)
                        &&& stage.path@ == token_path_of(self.enrollment.workload_token_path)
                        &&& stage.challenge == challenge
                        &&& stage.endpoint == self.enrollment.service_endpoint->0
                        &&& stage.pod_uid == self.enrollment.pod_uid->0
                        &&& stage.client == self.client
                        &&& stage.intervals == self.intervals
                    },
                },
            },
        }
    }

    /// Takes in that the transport stands, or why it could not be opened.
    pub fn connected(self, opened: Result<(), String>) -> (startup: Startup)
        ensures
            self.leads_to(opened, startup),
    {
        if let Err(reason) = opened {
            return Startup::Failed(TaskmasterError::Client(reason));
        }
        let challenge: String = match self.enrollment.enrollment_challenge {
            Some(challenge) => challenge,
            None => return Startup::Ready(
                Config {
                    client: self.client,
                    lease_seconds: self.intervals.lease_seconds,
                    poll_interval_seconds: self.intervals.poll_interval_seconds,
                    instance_lease: None,
                },
            ),
        };
        let endpoint: String = match self.enrollment.service_endpoint {
            Some(endpoint) => endpoint,
            None => return Startup::Failed(TaskmasterError::MissingEnv(SERVICE_ENDPOINT_ENV)),
        };
        let pod_uid: String = match self.enrollment.pod_uid {
            Some(pod_uid) => pod_uid,
            None => return Startup::Failed(TaskmasterError::MissingEnv(POD_UID_ENV)),
        };
        let path: String = match self.enrollment.workload_token_path {
            Some(path) => path,
            None => DEFAULT_WORKLOAD_TOKEN_PATH.to_owned(),
        };
        Startup::ReadWorkloadToken(
            TokenStage {
                path,
                challenge,
                endpoint,
                pod_uid,
                client: self.client,
                intervals: self.intervals,
            },
        )
    }
}

impl TokenStage {
    /// `startup` is the stage after the token was read, or could not be. The
    /// challenge is looked at only once there is a token to enroll with.
    pub open spec fn leads_to(self, read: Result<String, String>, startup: Startup) -> bool {
        match read {
            Err(reason) => startup == Startup::Failed(
                TaskmasterError::EnrollmentTokenUnreadable(reason),
            ),
            Ok(token) => if is_challenge_text(self.challenge@) {
                &&& startup matches Startup::Enroll(stage)
                &&& stage.call.base_url@ == crate::kernel_client::https_url(self.client.authority@)
                &&& crate::challenge::base64url(stage.call.challenge@) == self.challenge@
                &&& stage.call.endpoint@ == self.endpoint@
                &&& stage.call.pod_uid@ == self.pod_uid@
                &&& stage.call.workload_token@ == crate::text::trimmed(token@)
                &&& stage.client == self.client
                &&& stage.intervals == self.intervals
            } else {
                startup == Startup::Failed(TaskmasterError::InvalidEnrollmentChallenge)
            },
        }
    }

    /// Takes in the workload token, or why it could not be read.
    pub fn token_read(self, read: Result<String, String>) -> (startup: Startup)
        ensures
            self.leads_to(read, startup),
    {
        let token: String = match read {
            Ok(token) => token,
            Err(reason) => return Startup::Failed(
                TaskmasterError::EnrollmentTokenUnreadable(reason),
            ),
        };
        let workload_token: String = trim(token.as_str()).to_owned();
        match decode_challenge(self.challenge.as_str()) {
            Ok(challenge) => {
                assert(is_challenge_text(self.challenge@)) by {
                    assert(crate::challenge::base64url(challenge@) == self.challenge@);
                }
                let call = self.client.enroll(
                    challenge,
                    self.endpoint.as_str(),
                    self.pod_uid.as_str(),
                    workload_token,
                );
                Startup::Enroll(
                    EnrollStage { call, client: self.client, intervals: self.intervals },
                )
            },
            Err(error) => Startup::Failed(error),
        }
    }
}

impl EnrollStage {
    /// The stage after the enrollment was answered.
    pub open spec fn next(self, answer: Result<EnrolledInstance, String>) -> Startup {
        match answer {
            Ok(enrolled) => Startup::Ready(
                Config {
                    client: self.client,
                    lease_seconds: self.intervals.lease_seconds,
                    poll_interval_seconds: self.intervals.poll_interval_seconds,
                    instance_lease: Some(
                        InstanceLease {
                            revision: enrolled.lease_revision,
                            expires_at: enrolled.lease_expires_at,
                        },
                    ),
                },
            ),
            Err(reason) => Startup::Failed(TaskmasterError::Client(reason)),
        }
    }

    /// Takes in the kernel's answer to the enrollment, or why there is none.
    pub fn enrolled(self, answer: Result<EnrolledInstance, String>) -> (startup: Startup)
        ensures
            startup == self.next(answer),
    {
        match answer {
            Ok(enrolled) => Startup::Ready(
                Config {
                    client: self.client,
                    lease_seconds: self.intervals.lease_seconds,
                    poll_interval_seconds: self.intervals.poll_interval_seconds,
                    instance_lease: Some(
                        InstanceLease {
                            revision: enrolled.lease_revision,
                            expires_at: enrolled.lease_expires_at,
                        },
                    ),
                },
            ),
            Err(reason) => Startup::Failed(TaskmasterError::Client(reason)),
        }
    }
}

/// What the world outside answers, should startup ask for it.
pub struct Answers {
    pub certificate: Result<Vec<u8>, String>,
    pub transport: Result<(), String>,
    pub token: Result<String, String>,
    pub enrollment: Result<EnrolledInstance, String>,
}

/// `after` is a stage that follows `before` under the given answers.
pub open spec fn follows(before: Startup, answers: Answers, after: Startup) -> bool {
    match before {
        Startup::ReadCaCertificate(stage) => after == stage.next(answers.certificate),
        Startup::Connect(stage) => stage.leads_to(answers.transport, after),
        Startup::ReadWorkloadToken(stage) => stage.leads_to(answers.token, after),
        Startup::Enroll(stage) => after == stage.next(answers.enrollment),
        Startup::Ready(_) => false,
        Startup::Failed(_) => false,
    }
}

/// `stages` are the stages of one whole startup, from the environment to a
/// configuration or a failure.
pub open spec fn is_startup(
    environment: Environment,
    answers: Answers,
    stages: Seq<Startup>,
) -> bool {
    &&& stages.len() > 0
    &&& stages[0] == first_stage(environment)
    &&& forall|i: int|
        0 <= i < stages.len() - 1 ==> follows(#[trigger] stages[i], answers, stages[i + 1])
    &&& stages.last() is Ready || stages.last() is Failed
}

/// The client that the environment and the certificate answer make.
pub open spec fn client_of(environment: Environment, answers: Answers) -> KernelClient {
    KernelClient {
        service_id: service_id_of(environment),
        authority: environment.kernel_authority->0,
        extra_root_certificate_pem: if environment.kernel_ca_cert_path is Some {
            Some(answers.certificate->Ok_0)
        } else {
            None
        },
    }
}

/// What a startup comes to. The first thing that is wrong, in this order,
/// decides: the service's own variables, the certificate, the transport, the
/// enrollment variables, the token, the challenge, the enrollment.
pub open spec fn startup_result(environment: Environment, answers: Answers) -> Result<
    Config,
    TaskmasterError,
> {
    let enrolls = environment.enrollment.enrollment_challenge is Some;
    if service_error(environment) is Some {
        Err(service_error(environment)->0)
    } else if environment.kernel_ca_cert_path is Some && answers.certificate is Err {
        Err(TaskmasterError::CaCertificateUnreadable(answers.certificate->Err_0))
    } else if answers.transport is Err {
        Err(TaskmasterError::Client(answers.transport->Err_0))
    } else if enrolls && enrollment_error(environment.enrollment) is Some {
        Err(enrollment_error(environment.enrollment)->0)
    } else if enrolls && answers.token is Err {
        Err(TaskmasterError::EnrollmentTokenUnreadable(answers.token->Err_0))
    } else if enrolls && !is_challenge_text(environment.enrollment.enrollment_challenge->0@) {
        Err(TaskmasterError::InvalidEnrollmentChallenge)
    } else if enrolls && answers.enrollment is Err {
        Err(TaskmasterError::Client(answers.enrollment->Err_0))
    } else {
        Ok(
            Config {
                client: client_of(environment, answers),
                lease_seconds: lease_seconds_of(environment.claim_lease_seconds),
                poll_interval_seconds: poll_interval_of(environment.poll_interval_seconds),
                instance_lease: if enrolls {
                    Some(
                        InstanceLease {
                            revision: answers.enrollment->Ok_0.lease_revision,
                            expires_at: answers.enrollment->Ok_0.lease_expires_at,
                        },
                    )
                } else {
                    None
                },
            },
        )
    }
}

/// Every startup ends, after four answers at the most, in what the
/// environment and the answers come to.
pub proof fn startup_comes_to_its_result(
    environment: Environment,
    answers: Answers,
    stages: Seq<Startup>,
)
    requires
        is_startup(environment, answers, stages),
    ensures
        stages.len() <= 5,
        stages.last() == match startup_result(environment, answers) {
            Ok(config) => Startup::Ready(config),
            Err(error) => Startup::Failed(error),
        },
{
    let first = stages[0];
    if first is ReadCaCertificate || first is Connect {
        assert(stages.len() > 1);
        assert(follows(stages[0], answers, stages[1]));
        let at: int = if first is ReadCaCertificate {
            1
        } else {
            0
        };
        if stages[at] is Connect {
            assert(stages.len() > at + 1);
            assert(follows(stages[at], answers, stages[at + 1]));
            if stages[at + 1] is ReadWorkloadToken {
                assert(stages.len() > at + 2);
                assert(follows(stages[at + 1], answers, stages[at + 2]));
                if stages[at + 2] is Enroll {
                    assert(stages.len() > at + 3);
                    assert(follows(stages[at + 2], answers, stages[at + 3]));
                    if stages.len() > at + 4 {
                        assert(follows(stages[at + 3], answers, stages[at + 4]));
                    }
                } else if stages.len() > at + 3 {
                    assert(follows(stages[at + 2], answers, stages[at + 3]));
                }
            } else if stages.len() > at + 2 {
                assert(follows(stages[at + 1], answers, stages[at + 2]));
            }
        } else if stages.len() > at + 1 {
            assert(follows(stages[at], answers, stages[at + 1]));
        }
    } else if stages.len() > 1 {
        assert(follows(stages[0], answers, stages[1]));
    }
}

/// The kernel's authority and the service's identity are required, and an
/// enrolling process must know its endpoint and its Pod as well.
pub proof fn required_variables_are_required(environment: Environment, answers: Answers)
    requires
        startup_result(environment, answers) is Ok,
    ensures
        environment.kernel_authority is Some,
        environment.taskmaster_service_id is Some,
        crate::identity::uuid_value(environment.taskmaster_service_id->0@) is Some,
        environment.enrollment.enrollment_challenge is Some
            ==> environment.enrollment.service_endpoint is Some
            && environment.enrollment.pod_uid is Some,
{
}

/// A configuration holds a lease exactly where this process enrolled itself.
pub proof fn lease_is_held_exactly_after_enrolling(environment: Environment, answers: Answers)
    requires
        startup_result(environment, answers) is Ok,
    ensures
        startup_result(environment, answers)->Ok_0.instance_lease is Some
            <==> environment.enrollment.enrollment_challenge is Some,
{
}

/// A process without a challenge never looks at the enrollment variables,
/// the token or the enrollment's answer.
pub proof fn enrollment_is_optional(
    environment: Environment,
    variables: EnrollmentVariables,
    answers: Answers,
    others: Answers,
)
    requires
        environment.enrollment.enrollment_challenge is None,
        variables.enrollment_challenge is None,
        answers.certificate == others.certificate,
        answers.transport == others.transport,
    ensures
        startup_result(environment, answers) == startup_result(
            Environment { enrollment: variables, ..environment },
            others,
        ),
{
}

/// What the environment alone decides. Without a kernel, or without an
/// identity that is a UUID, startup fails and says which variable is at fault,
/// the kernel's first. With both, the identity and the kernel are the ones
/// named, and the next thing is the named certificate, or the transport where
/// none is named.
pub proof fn environment_names_the_service(environment: Environment, startup: Startup)
    requires
        call_ensures(Config::from_env, (environment,), startup),
    ensures
        environment.kernel_authority is None ==> (startup matches Startup::Failed(
            TaskmasterError::MissingEnv(name),
        ) && name@ == "KERNEL_AUTHORITY"@),
        environment.kernel_authority is Some && environment.taskmaster_service_id is None ==> (
        startup matches Startup::Failed(TaskmasterError::MissingEnv(name)) && name@
            == "TASKMASTER_SERVICE_ID"@),
        environment.kernel_authority matches Some(authority) ==> (
        environment.taskmaster_service_id matches Some(text) ==> match crate::identity::uuid_value(
            text@,
        ) {
            None => startup matches Startup::Failed(TaskmasterError::InvalidServiceId),
            Some(id) => match environment.kernel_ca_cert_path {
                Some(path) => {
                    &&& startup matches Startup::ReadCaCertificate(stage)
                    &&& stage.path == path
                    &&& stage.service_id == id
                    &&& stage.authority == authority
                    &&& stage.enrollment == environment.enrollment
                },
                None => {
                    &&& startup matches Startup::Connect(stage)
                    &&& stage.client.service_id == id
                    &&& stage.client.authority == authority
                    &&& stage.client.extra_root_certificate_pem is None
                    &&& stage.enrollment == environment.enrollment
                },
            },
        }),
{
    if let Some(text) = environment.taskmaster_service_id {
        crate::identity::uuid_fits(text@);
    }
}

/// The intervals that a stage goes on with, where it goes on with any.
pub open spec fn intervals_at(startup: Startup) -> Option<Intervals> {
    match startup {
        Startup::ReadCaCertificate(stage) => Some(stage.intervals),
        Startup::Connect(stage) => Some(stage.intervals),
        Startup::ReadWorkloadToken(stage) => Some(stage.intervals),
        Startup::Enroll(stage) => Some(stage.intervals),
        Startup::Ready(config) => Some(
            Intervals {
                lease_seconds: config.lease_seconds,
                poll_interval_seconds: config.poll_interval_seconds,
            },
        ),
        Startup::Failed(_) => None,
    }
}

/// The intervals are the numbers the environment holds, each from its own
/// variable: three hundred and five seconds where a variable is unset or is
/// not a number that fits.
pub proof fn environment_sets_the_intervals(environment: Environment, startup: Startup)
    requires
        call_ensures(Config::from_env, (environment,), startup),
    ensures
        intervals_at(startup) matches Some(intervals) ==> {
            &&& intervals.lease_seconds == match environment.claim_lease_seconds {
                Some(text) => match crate::numbers::i64_value(text@) {
                    Some(seconds) => seconds,
                    None => 300i64,
                },
                None => 300i64,
            }
            &&& intervals.poll_interval_seconds == match environment.poll_interval_seconds {
                Some(text) => match crate::numbers::u64_value(text@) {
                    Some(seconds) => seconds,
                    None => 5u64,
                },
                None => 5u64,
            }
        },
{
}

/// Every interval can be set: the decimal text of a number, in its variable,
/// sets that very number.
pub proof fn written_intervals_are_used(
    environment: Environment,
    startup: Startup,
    lease_seconds: i64,
    poll_interval_seconds: u64,
)
    requires
        call_ensures(Config::from_env, (environment,), startup),
        environment.claim_lease_seconds is Some,
        environment.claim_lease_seconds->0@ == crate::numbers::as_text(
            crate::numbers::decimal(lease_seconds as int),
        ),
        environment.poll_interval_seconds is Some,
        environment.poll_interval_seconds->0@ == crate::numbers::as_text(
            crate::numbers::decimal(poll_interval_seconds as int),
        ),
    ensures
        intervals_at(startup) matches Some(intervals) ==> intervals.lease_seconds == lease_seconds
            && intervals.poll_interval_seconds == poll_interval_seconds,
{
    crate::numbers::decimal_reads_back(lease_seconds as int);
    crate::numbers::decimal_reads_back(poll_interval_seconds as int);
}

/// A certificate that was read is the one trusted, and nothing else changes;
/// one that could not be read ends startup with the reason.
pub proof fn certificate_is_trusted_as_read(
    stage: CaCertificateStage,
    read: Result<Vec<u8>, String>,
    startup: Startup,
)
    requires
        call_ensures(CaCertificateStage::certificate_read, (stage, read), startup),
    ensures
        read matches Ok(pem) ==> {
            &&& startup matches Startup::Connect(after)
            &&& after.client.extra_root_certificate_pem == Some(pem)
            &&& after.client.service_id == stage.service_id
            &&& after.client.authority == stage.authority
            &&& after.intervals.lease_seconds == stage.intervals.lease_seconds
            &&& after.intervals.poll_interval_seconds == stage.intervals.poll_interval_seconds
            &&& after.enrollment == stage.enrollment
        },
        read matches Err(reason) ==> (startup matches Startup::Failed(
            TaskmasterError::CaCertificateUnreadable(told),
        ) && told == reason),
{
}

/// A transport that could not be opened ends startup with the reason. Once it
/// is open, a process without a challenge is ready as it stands and holds no
/// lease. One with a challenge needs its endpoint and its Pod, and the token
/// is read where the environment says, or at the usual place.
pub proof fn connection_leads_to_enrolling_or_running(
    stage: ConnectStage,
    opened: Result<(), String>,
    startup: Startup,
)
    requires
        call_ensures(ConnectStage::connected, (stage, opened), startup),
    ensures
        opened matches Err(reason) ==> (startup matches Startup::Failed(
            TaskmasterError::Client(told),
        ) && told == reason),
        opened is Ok && stage.enrollment.enrollment_challenge is None ==> {
            &&& startup matches Startup::Ready(config)
            &&& config.client == stage.client
            &&& config.lease_seconds == stage.intervals.lease_seconds
            &&& config.poll_interval_seconds == stage.intervals.poll_interval_seconds
            &&& config.instance_lease is None
        },
        opened is Ok && stage.enrollment.enrollment_challenge is Some
            && stage.enrollment.service_endpoint is None ==> (startup matches Startup::Failed(
            TaskmasterError::MissingEnv(name),
        ) && name@ == "SERVICE_ENDPOINT"@),
        opened is Ok && stage.enrollment.enrollment_challenge is Some
            && stage.enrollment.service_endpoint is Some && stage.enrollment.pod_uid is None ==> (
        startup matches Startup::Failed(TaskmasterError::MissingEnv(name)) && name@ == "POD_UID"@),
        opened is Ok && stage.enrollment.enrollment_challenge is Some
            && stage.enrollment.service_endpoint is Some && stage.enrollment.pod_uid is Some ==> {
            &&& startup matches Startup::ReadWorkloadToken(after)
            &&& stage.enrollment.workload_token_path matches Some(path) ==> after.path@ == path@
            &&& stage.enrollment.workload_token_path is None ==> after.path@
                == "/var/run/secrets/infernal-law-enrollment/token"@
            &&& Some(after.challenge) == stage.enrollment.enrollment_challenge
            &&& Some(after.endpoint) == stage.enrollment.service_endpoint
            &&& Some(after.pod_uid) == stage.enrollment.pod_uid
            &&& after.client == stage.client
            &&& after.intervals.lease_seconds == stage.intervals.lease_seconds
            &&& after.intervals.poll_interval_seconds == stage.intervals.poll_interval_seconds
        },
{
}

/// A token that could not be read ends startup with the reason, whatever the
/// challenge. With a token, a text that is no challenge ends it too; for the
/// text of any challenge, that challenge is answered over HTTPS to the own
/// kernel, with the token less the white space around it and the endpoint and
/// the Pod as they are.
pub proof fn enrollment_answers_the_challenge(
    stage: TokenStage,
    read: Result<String, String>,
    startup: Startup,
)
    requires
        call_ensures(TokenStage::token_read, (stage, read), startup),
    ensures
        read matches Err(reason) ==> (startup matches Startup::Failed(
            TaskmasterError::EnrollmentTokenUnreadable(told),
        ) && told == reason),
        read is Ok && (forall|bytes: Seq<u8>|
            bytes.len() == 32 ==> #[trigger] crate::challenge::base64url(bytes)
                != stage.challenge@) ==> startup matches Startup::Failed(
            TaskmasterError::InvalidEnrollmentChallenge,
        ),
        read matches Ok(token) ==> forall|bytes: Seq<u8>|
            bytes.len() == 32 && #[trigger] crate::challenge::base64url(bytes)
                == stage.challenge@ ==> {
                &&& startup matches Startup::Enroll(after)
                &&& after.call.challenge@ == bytes
                &&& after.call.base_url@ == "https://"@ + stage.client.authority@
                &&& after.call.endpoint@ == stage.endpoint@
                &&& after.call.pod_uid@ == stage.pod_uid@
                &&& crate::text::is_core(token@, after.call.workload_token@)
                &&& after.client == stage.client
                &&& after.intervals.lease_seconds == stage.intervals.lease_seconds
                &&& after.intervals.poll_interval_seconds == stage.intervals.poll_interval_seconds
            },
{
    if let Ok(token) = read {
        crate::text::trimming_leaves_the_core(token@);
        assert forall|bytes: Seq<u8>|
            bytes.len() == 32 && #[trigger] crate::challenge::base64url(bytes)
                == stage.challenge@ implies (startup matches Startup::Enroll(after)
            && after.call.challenge@ == bytes) by {
            assert(is_challenge_text(stage.challenge@));
            crate::challenge::base64url_is_injective(startup->Enroll_0.call.challenge@, bytes);
        }
    }
}

/// An enrolled process is ready and holds the revision and the expiry that
/// the kernel granted it; a refused one fails with the reason.
pub proof fn enrollment_grants_the_lease(
    stage: EnrollStage,
    answer: Result<EnrolledInstance, String>,
    startup: Startup,
)
    requires
        call_ensures(EnrollStage::enrolled, (stage, answer), startup),
    ensures
        answer matches Ok(granted) ==> {
            &&& startup matches Startup::Ready(config)
            &&& config.instance_lease matches Some(lease)
            &&& lease.revision == granted.lease_revision
            &&& lease.expires_at == granted.lease_expires_at
            &&& config.client == stage.client
            &&& config.lease_seconds == stage.intervals.lease_seconds
            &&& config.poll_interval_seconds == stage.intervals.poll_interval_seconds
        },
        answer matches Err(reason) ==> (startup matches Startup::Failed(
            TaskmasterError::Client(told),
        ) && told == reason),
{
}

/// Startup succeeds exactly where everything it turns to is in order: the
/// kernel and the identity always, the certificate where one is named, the
/// transport always, and for a process with a challenge its endpoint, its Pod,
/// its token, the challenge itself and the kernel's answer. It then runs under
/// the identity, against the kernel, with the certificate and with the lease
/// that these gave.
pub proof fn startup_succeeds_exactly_in_order(environment: Environment, answers: Answers)
    ensures
        startup_result(environment, answers) is Ok <==> {
            &&& environment.kernel_authority is Some
            &&& environment.taskmaster_service_id matches Some(text)
            &&& crate::identity::uuid_value(text@) is Some
            &&& environment.kernel_ca_cert_path is Some ==> answers.certificate is Ok
            &&& answers.transport is Ok
            &&& environment.enrollment.enrollment_challenge matches Some(challenge) ==> {
                &&& environment.enrollment.service_endpoint is Some
                &&& environment.enrollment.pod_uid is Some
                &&& answers.token is Ok
                &&& exists|bytes: Seq<u8>|
                    bytes.len() == 32 && #[trigger] crate::challenge::base64url(bytes)
                        == challenge@
                &&& answers.enrollment is Ok
            }
        },
        startup_result(environment, answers) matches Ok(config) ==> {
            &&& Some(config.client.authority) == environment.kernel_authority
            &&& Some(config.client.service_id as nat) == crate::identity::uuid_value(
                environment.taskmaster_service_id->0@,
            )
            &&& config.client.extra_root_certificate_pem is Some
                <==> environment.kernel_ca_cert_path is Some
            &&& config.client.extra_root_certificate_pem matches Some(pem) ==> answers.certificate
                == Ok::<Vec<u8>, String>(pem)
            &&& config.instance_lease is Some
                <==> environment.enrollment.enrollment_challenge is Some
            &&& config.instance_lease matches Some(lease) ==> {
                &&& answers.enrollment matches Ok(granted)
                &&& lease.revision == granted.lease_revision
                &&& lease.expires_at == granted.lease_expires_at
            }
        },
{
    if let Some(text) = environment.taskmaster_service_id {
        crate::identity::uuid_fits(text@);
    }
}

} // verus!
