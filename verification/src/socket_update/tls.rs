//! TLS for the update socket: which steps set it up, and which certificate
//! faults are forgiven.

use openssl::x509::X509VerifyResult;
use vstd::prelude::*;

use crate::fault::{ErrorKind, IoError};
use crate::text::joined;

verus! {

/// The `[socket_source.tls]` section of the configuration file. Its presence
/// enables TLS on the listener.
#[derive(Debug, Clone, PartialEq, Eq)]
pub struct SocketTlsConfig {
    /// PEM server certificate chain.
    pub server_cert: String,
    /// PEM private key of the server.
    pub server_key: String,
    /// Request and validate a client certificate.
    pub request_client_cert: bool,
    /// PEM certificates that client certificates are validated against.
    pub ca_cert: Option<String>,
    /// Ignore the validity timestamps of client certificates.
    pub ignore_expiration: bool,
    /// Enable FIPS mode.
    pub fips: bool,
}

/// `openssl::x509::X509VerifyResult`.
#[verifier::external_type_specification]
#[verifier::external_body]
pub struct ExX509VerifyResult(openssl::x509::X509VerifyResult);

/// The number of a verification result.
pub uninterp spec fn verify_code(result: X509VerifyResult) -> i32;

/// `openssl::x509::X509VerifyResult::as_raw`: the number of the result.
#[verifier::external_body]
fn as_raw(result: &X509VerifyResult) -> (code: i32)
    ensures
        code == verify_code(*result),
{
    result.as_raw()
}

/// A number that stands for a date fault: a certificate that is not yet valid
/// or has expired, or whose validity dates are malformed.
pub open spec fn date_fault(code: i32) -> bool {
    code == 9 || code == 10 || code == 13 || code == 14
}

/// Whether a number stands for a date fault.
pub fn is_date_fault(code: i32) -> (r: bool)
    ensures
        r == date_fault(code),
{
    code == 9 || code == 10 || code == 13 || code == 14
}

/// Whether the only fault of a certificate is a date fault. The device has no
/// reliable clock, so that such a fault may be forgiven.
pub fn is_ignorable_expiration_result(result: &X509VerifyResult) -> (r: bool)
    ensures
        r == date_fault(verify_code(*result)),
{
    is_date_fault(as_raw(result))
}

/// Whether a certificate is accepted, given whether it verified and with which
/// result.
pub fn accepts(preverified: bool, result: &X509VerifyResult) -> (r: bool)
    ensures
        r == (preverified || date_fault(verify_code(*result))),
{
    preverified || is_ignorable_expiration_result(result)
}

/// A step of setting TLS up.
#[derive(Debug)]
pub enum TlsStep {
    /// Load the default provider.
    LoadDefaultProvider,
    /// Load the FIPS provider.
    LoadFipsProvider,
    /// Make FIPS the default.
    EnableFips,
    /// Create the acceptor with the intermediate profile for servers.
    CreateBuilder,
    /// Load the certificate chain.
    CertificateChain(String),
    /// Load the private key.
    PrivateKey(String),
    /// Hold the key against the certificate.
    CheckKey,
    /// Refuse: client certificates cannot be validated without a CA.
    MissingCa,
    /// Load the certificates that client certificates are validated against.
    CaFile(String),
    /// Set how client certificates are verified.
    Verify {
        /// Request a client certificate.
        peer: bool,
        /// Forgive date faults.
        ignore_expiration: bool,
    },
}

/// A step with its file name as text.
pub enum TlsStepView {
    /// Load the default provider.
    LoadDefaultProvider,
    /// Load the FIPS provider.
    LoadFipsProvider,
    /// Make FIPS the default.
    EnableFips,
    /// Create the acceptor.
    CreateBuilder,
    /// Load the certificate chain.
    CertificateChain(Seq<char>),
    /// Load the private key.
    PrivateKey(Seq<char>),
    /// Hold the key against the certificate.
    CheckKey,
    /// Refuse for want of a CA.
    MissingCa,
    /// Load the certificates of the CA.
    CaFile(Seq<char>),
    /// Set how client certificates are verified.
    Verify(bool, bool),
}

impl View for TlsStep {
    type V = TlsStepView;

    open spec fn view(&self) -> TlsStepView {
        match self {
            TlsStep::LoadDefaultProvider => TlsStepView::LoadDefaultProvider,
            TlsStep::LoadFipsProvider => TlsStepView::LoadFipsProvider,
            TlsStep::EnableFips => TlsStepView::EnableFips,
            TlsStep::CreateBuilder => TlsStepView::CreateBuilder,
            TlsStep::CertificateChain(path) => TlsStepView::CertificateChain(path@),
            TlsStep::PrivateKey(path) => TlsStepView::PrivateKey(path@),
            TlsStep::CheckKey => TlsStepView::CheckKey,
            TlsStep::MissingCa => TlsStepView::MissingCa,
            TlsStep::CaFile(path) => TlsStepView::CaFile(path@),
            TlsStep::Verify { peer, ignore_expiration } => TlsStepView::Verify(
                *peer,
                *ignore_expiration,
            ),
        }
    }
}

/// A list of steps with their file names as texts.
pub open spec fn step_views(steps: Seq<TlsStep>) -> Seq<TlsStepView> {
    Seq::new(steps.len(), |i: int| steps[i]@)
}

/// The steps that set TLS up, in order.
pub open spec fn tls_steps(config: SocketTlsConfig) -> Seq<TlsStepView> {
    let fips = if config.fips {
        seq![
            TlsStepView::LoadDefaultProvider,
            TlsStepView::LoadFipsProvider,
            TlsStepView::EnableFips,
        ]
    } else {
        Seq::empty()
    };
    let server = seq![
        TlsStepView::CreateBuilder,
        TlsStepView::CertificateChain(config.server_cert@),
        TlsStepView::PrivateKey(config.server_key@),
        TlsStepView::CheckKey,
    ];
    let client = if !config.request_client_cert {
        Seq::empty()
    } else {
        match config.ca_cert {
            Some(path) => seq![TlsStepView::CaFile(path@)],
            None => seq![TlsStepView::MissingCa],
        }
    };
    fips + server + client + seq![
        TlsStepView::Verify(config.request_client_cert, config.ignore_expiration),
    ]
}

/// The steps that set TLS up, in order. Each has to succeed; see
/// [`step_failed`].
pub fn build_tls_acceptor(config: &SocketTlsConfig) -> (steps: Vec<TlsStep>)
    ensures
        step_views(steps@) == tls_steps(*config),
{
    let mut steps: Vec<TlsStep> = Vec::new();
    if config.fips {
        steps.push(TlsStep::LoadDefaultProvider);
        steps.push(TlsStep::LoadFipsProvider);
        steps.push(TlsStep::EnableFips);
    }
    steps.push(TlsStep::CreateBuilder);
    steps.push(TlsStep::CertificateChain(config.server_cert.clone()));
    steps.push(TlsStep::PrivateKey(config.server_key.clone()));
    steps.push(TlsStep::CheckKey);
    if config.request_client_cert {
        match &config.ca_cert {
            Some(path) => steps.push(TlsStep::CaFile(path.clone())),
            None => steps.push(TlsStep::MissingCa),
        }
    }
    steps.push(
        TlsStep::Verify {
            peer: config.request_client_cert,
            ignore_expiration: config.ignore_expiration,
        },
    );
    assert(step_views(steps@) =~= tls_steps(*config));
    steps
}

/// The message for a step that failed, given OpenSSL's description.
pub open spec fn failure_text(step: TlsStepView, description: Seq<char>) -> Seq<char> {
    match step {
        TlsStepView::LoadDefaultProvider => "loading OpenSSL default provider failed: "@
            + description,
        TlsStepView::LoadFipsProvider => "loading OpenSSL FIPS provider failed: "@ + description,
        TlsStepView::EnableFips => "enabling OpenSSL FIPS default properties failed"@,
        TlsStepView::CreateBuilder => "OpenSSL TLS builder creation failed: "@ + description,
        TlsStepView::CertificateChain(path) => "loading OpenSSL server certificate chain "@ + path
            + " failed: "@ + description,
        TlsStepView::PrivateKey(path) => "loading OpenSSL server private key "@ + path
            + " failed: "@ + description,
        TlsStepView::CheckKey => "OpenSSL server certificate/key mismatch: "@ + description,
        TlsStepView::MissingCa => "client certificate validation requires a ca_cert"@,
        TlsStepView::CaFile(path) => "loading OpenSSL CA file "@ + path + " failed: "@
            + description,
        TlsStepView::Verify(_, _) => description,
    }
}

/// Three texts, one after the other.
fn joined3(a: &str, b: &str, c: &str) -> (s: String)
    ensures
        s@ == a@ + b@ + c@,
{
    let ab = joined(a, b);
    joined(ab.as_str(), c)
}

/// The fault of a step that failed. The step for a missing CA always fails,
/// because of the configuration.
pub fn step_failed(step: &TlsStep, description: &str) -> (err: IoError)
    ensures
        err.says(
            if step@ is MissingCa {
                ErrorKind::InvalidInput
            } else {
                ErrorKind::Other
            },
            failure_text(step@, description@),
        ),
{
    let message = match step {
        TlsStep::LoadDefaultProvider => joined(
            "loading OpenSSL default provider failed: ",
            description,
        ),
        TlsStep::LoadFipsProvider => joined("loading OpenSSL FIPS provider failed: ", description),
        TlsStep::EnableFips => "enabling OpenSSL FIPS default properties failed".to_owned(),
        TlsStep::CreateBuilder => joined("OpenSSL TLS builder creation failed: ", description),
        TlsStep::CertificateChain(path) => {
            let start = joined3(
                "loading OpenSSL server certificate chain ",
                path.as_str(),
                " failed: ",
            );
            joined(start.as_str(), description)
        },
        TlsStep::PrivateKey(path) => {
            let start = joined3(
                "loading OpenSSL server private key ",
                path.as_str(),
                " failed: ",
            );
            joined(start.as_str(), description)
        },
        TlsStep::CheckKey => joined("OpenSSL server certificate/key mismatch: ", description),
        TlsStep::MissingCa => {
            return IoError::new(
                ErrorKind::InvalidInput,
                "client certificate validation requires a ca_cert",
            );
        },
        TlsStep::CaFile(path) => {
            let start = joined3("loading OpenSSL CA file ", path.as_str(), " failed: ");
            joined(start.as_str(), description)
        },
        TlsStep::Verify { .. } => description.to_owned(),
    };
    IoError::other(message.as_str())
}

/// How the TLS handshake of an accepted connection failed.
pub enum HandshakeFault {
    /// No session could be set up; the text says why.
    Session(String),
    /// No stream could be set up; the text says why.
    Stream(String),
    /// It was not done in time.
    TimedOut,
    /// It failed; the text says why.
    Handshake(String),
}

/// The fault of a connection whose TLS handshake failed.
pub fn accept_failed(fault: &HandshakeFault) -> (err: IoError)
    ensures
        match fault {
            HandshakeFault::Session(text) => err.says(
                ErrorKind::Other,
                "OpenSSL TLS session setup failed: "@ + text@,
            ),
            HandshakeFault::Stream(text) => err.says(
                ErrorKind::Other,
                "OpenSSL stream setup failed: "@ + text@,
            ),
            HandshakeFault::TimedOut => err.says(
                ErrorKind::TimedOut,
                "TLS handshake timed out"@,
            ),
            HandshakeFault::Handshake(text) => err.says(
                ErrorKind::Other,
                "TLS handshake failed: "@ + text@,
            ),
        },
{
    let message = match fault {
        HandshakeFault::Session(text) => joined(
            "OpenSSL TLS session setup failed: ",
            text.as_str(),
        ),
        HandshakeFault::Stream(text) => joined("OpenSSL stream setup failed: ", text.as_str()),
        HandshakeFault::TimedOut => {
            return IoError::new(ErrorKind::TimedOut, "TLS handshake timed out");
        },
        HandshakeFault::Handshake(text) => joined("TLS handshake failed: ", text.as_str()),
    };
    IoError::other(message.as_str())
}

/// Setting TLS up for client certificates without a CA cannot succeed, and
/// with one, or without client certificates, the configuration stands in the
/// way of nothing.
pub proof fn law_client_certificates_need_a_ca(config: SocketTlsConfig)
    ensures
        tls_steps(config).contains(TlsStepView::MissingCa) <==> config.request_client_cert
            && config.ca_cert is None,
{
    let steps = tls_steps(config);
    let offset = if config.fips {
        7int
    } else {
        4
    };
    if config.request_client_cert && config.ca_cert is None {
        assert(steps[offset] == TlsStepView::MissingCa);
    }
}

/// OpenSSL's date faults are 9 and 10, not yet valid and expired, and 13 and 14, a
/// malformed date. They are forgiven, and no other fault is.
pub proof fn law_date_faults(
    code: i32,
    date: bool,
    result: X509VerifyResult,
    ignorable: bool,
    verified: bool,
    accepted: bool,
)
    requires
        call_ensures(is_date_fault, (code,), date),
        verify_code(result) == code,
        call_ensures(is_ignorable_expiration_result, (&result,), ignorable),
        call_ensures(accepts, (verified, &result), accepted),
    ensures
        date <==> code == 9 || code == 10 || code == 13 || code == 14,
        ignorable <==> date,
        accepted <==> verified || date,
{
}

/// The steps that set TLS up: FIPS first where it is asked for, then the server's
/// chain and key, then the CA where client certificates are asked for, which fails
/// without one, and last how they are verified.
pub proof fn law_steps(config: SocketTlsConfig, steps: Vec<TlsStep>)
    requires
        call_ensures(build_tls_acceptor, (&config,), steps),
    ensures
        ({
            let at = if config.fips {
                3int
            } else {
                0
            };
            let n = steps@.len() as int;
            &&& config.fips ==> steps@[0] is LoadDefaultProvider && steps@[1] is LoadFipsProvider
                && steps@[2] is EnableFips
            &&& steps@[at] is CreateBuilder
            &&& steps@[at + 1] matches TlsStep::CertificateChain(path) && path@
                == config.server_cert@
            &&& steps@[at + 2] matches TlsStep::PrivateKey(path) && path@ == config.server_key@
            &&& steps@[at + 3] is CheckKey
            &&& !config.request_client_cert ==> n == at + 5
            &&& config.request_client_cert ==> n == at + 6
            &&& config.request_client_cert && config.ca_cert is Some ==> (
            steps@[at + 4] matches TlsStep::CaFile(path) && path@ == config.ca_cert->0@)
            &&& config.request_client_cert && config.ca_cert is None ==> steps@[at + 4] is MissingCa
            &&& steps@[n - 1] matches TlsStep::Verify { peer, ignore_expiration } && peer
                == config.request_client_cert && ignore_expiration == config.ignore_expiration
        }),
{
    let views = step_views(steps@);
    let at = if config.fips {
        3int
    } else {
        0
    };
    let n = steps@.len() as int;
    assert(views.len() == n);
    if config.fips {
        assert(views[0] == steps@[0]@ && views[1] == steps@[1]@ && views[2] == steps@[2]@);
    }
    assert(views[at] == steps@[at]@ && views[at + 1] == steps@[at + 1]@);
    assert(views[at + 2] == steps@[at + 2]@ && views[at + 3] == steps@[at + 3]@);
    assert(views[at + 4] == steps@[at + 4]@ && views[n - 1] == steps@[n - 1]@);
}

/// What is told of a step that failed.
pub proof fn law_step_failures(step: TlsStep, description: &str, err: IoError)
    requires
        call_ensures(step_failed, (&step, description), err),
    ensures
        step is MissingCa ==> err.kind == ErrorKind::InvalidInput && err.message@
            == "client certificate validation requires a ca_cert"@,
        !(step is MissingCa) ==> err.kind == ErrorKind::Other,
        step is LoadDefaultProvider ==> err.message@ == "loading OpenSSL default provider failed: "@
            + description@,
        step is LoadFipsProvider ==> err.message@ == "loading OpenSSL FIPS provider failed: "@
            + description@,
        step is EnableFips ==> err.message@ == "enabling OpenSSL FIPS default properties failed"@,
        step is CreateBuilder ==> err.message@ == "OpenSSL TLS builder creation failed: "@
            + description@,
        step matches TlsStep::CertificateChain(path) ==> err.message@
            == "loading OpenSSL server certificate chain "@ + path@ + " failed: "@ + description@,
        step matches TlsStep::PrivateKey(path) ==> err.message@
            == "loading OpenSSL server private key "@ + path@ + " failed: "@ + description@,
        step is CheckKey ==> err.message@ == "OpenSSL server certificate/key mismatch: "@
            + description@,
        step matches TlsStep::CaFile(path) ==> err.message@ == "loading OpenSSL CA file "@ + path@
            + " failed: "@ + description@,
        step is Verify ==> err.message@ == description@,
{
}

/// What is told of a handshake that failed; one that was too slow has timed out.
pub proof fn law_handshake_failures(fault: HandshakeFault, err: IoError)
    requires
        call_ensures(accept_failed, (&fault,), err),
    ensures
        fault is TimedOut <==> err.kind == ErrorKind::TimedOut,
        fault is TimedOut ==> err.message@ == "TLS handshake timed out"@,
        fault matches HandshakeFault::Session(text) ==> err.message@
            == "OpenSSL TLS session setup failed: "@ + text@,
        fault matches HandshakeFault::Stream(text) ==> err.message@
            == "OpenSSL stream setup failed: "@ + text@,
        fault matches HandshakeFault::Handshake(text) ==> err.message@ == "TLS handshake failed: "@
            + text@,
{
}

} // verus!
