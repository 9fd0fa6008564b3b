//! Settings of the DFU function.

use bytes::Bytes;
use vstd::prelude::*;

use crate::buffer::{shared_as_slice, shared_contents, shared_from_vec, shared_slice};
use crate::swupdate::config::{SwupdateConfig, SwupdateConfigError, SwupdateParams};
use crate::sysinfo::runtime::{machine_json, BaseSystemInfo, BootRootfsInfo, SystemInfo};
use crate::text::{debug_quoted, debug_text, joined, opt_text, same_text};

verus! {

/// Bytes per transaction unless configured otherwise.
pub const DEFAULT_TRANSFER_SIZE: u16 = 4096;

/// Poll timeout in milliseconds unless configured otherwise.
pub const DEFAULT_POLL_TIMEOUT_MS: u32 = 10;

/// Why a DFU section was rejected.
#[derive(Debug)]
pub enum DfuConfigError {
    /// Its update settings were.
    Swupdate(SwupdateConfigError),
    /// Uploads cannot be served from this target.
    UnsupportedUploadTarget(String),
}

impl DfuConfigError {
    /// A description for the user.
    pub open spec fn text(self) -> Seq<char> {
        match self {
            DfuConfigError::Swupdate(err) => err.text(),
            DfuConfigError::UnsupportedUploadTarget(target) =>
            "unsupported insecure upload target "@ + debug_quoted(target@)
                + "; only \"sysinfo\" is allowed"@,
        }
    }

    /// A description for the user.
    pub fn message(&self) -> (text: String)
        ensures
            text@ == self.text(),
    {
        match self {
            DfuConfigError::Swupdate(err) => err.message(),
            DfuConfigError::UnsupportedUploadTarget(target) => {
                let quoted = debug_text(target.as_str());
                let start = joined("unsupported insecure upload target ", quoted.as_str());
                joined(start.as_str(), "; only \"sysinfo\" is allowed")
            },
        }
    }
}

/// Source served to the host in response to `DFU_UPLOAD`.
#[derive(Debug)]
pub enum UploadSource {
    /// Serve an in-memory blob (e.g. a system-information report).
    Data(Bytes),
}

impl Clone for UploadSource {
    fn clone(&self) -> (copy: Self)
        ensures
            copy.bytes() == self.bytes(),
    {
        match self {
            UploadSource::Data(data) => {
                let len: usize = shared_as_slice(data).len();
                let copy = UploadSource::Data(shared_slice(data, 0, len));
                assert(copy.bytes() =~= self.bytes());
                copy
            },
        }
    }
}

impl UploadSource {
    /// The bytes that are served.
    pub open spec fn bytes(self) -> Seq<u8> {
        match self {
            UploadSource::Data(data) => shared_contents(data),
        }
    }
}

/// Runtime settings of the DFU function.
#[derive(Debug, Clone)]
pub struct DfuConfig {
    /// Destination for received firmware.
    pub download: SwupdateParams,
    /// Optional source that firmware uploads are served from.
    pub upload: Option<UploadSource>,
    /// Maximum number of bytes transferred per control-write transaction.
    pub transfer_size: u16,
    /// Value reported to the host in `bwPollTimeout` of `DFU_GETSTATUS`.
    pub poll_timeout_ms: u32,
}

/// The DFU functional descriptor.
#[derive(Debug, Clone, Copy, PartialEq, Eq, Structural)]
pub struct DfuDesc {
    /// The device takes downloads.
    pub can_download: bool,
    /// The device serves uploads.
    pub can_upload: bool,
    /// The device communicates after manifestation.
    pub manifest_tolerant: bool,
    /// The device detaches by itself.
    pub will_detach: bool,
    /// Time the device waits for a reset after a detach, in milliseconds.
    pub detach_timeout_ms: u16,
    /// Maximum number of bytes per control-write transaction.
    pub transfer_size: u16,
    /// Major part of the DFU version.
    pub version_major: u8,
    /// Minor part of the DFU version.
    pub version_minor: u8,
}

impl DfuConfig {
    /// The DFU functional descriptor for these settings.
    pub open spec fn spec_descriptor(self) -> DfuDesc {
        DfuDesc {
            can_download: true,
            can_upload: self.upload is Some,
            manifest_tolerant: true,
            will_detach: false,
            detach_timeout_ms: 1000,
            transfer_size: self.transfer_size,
            version_major: 1,
            version_minor: 1,
        }
    }

    /// The DFU functional descriptor that advertises these capabilities to the
    /// host.
    pub fn descriptor(&self) -> (desc: DfuDesc)
        ensures
            desc == self.spec_descriptor(),
    {
        DfuDesc {
            can_download: true,
            can_upload: self.upload.is_some(),
            manifest_tolerant: true,
            will_detach: false,
            detach_timeout_ms: 1000,
            transfer_size: self.transfer_size,
            version_major: 1,
            version_minor: 1,
        }
    }
}

/// DFU section of the configuration file.
#[derive(Debug, Clone)]
pub struct DfuFnConfig {
    /// Update settings.
    pub swupdate: SwupdateConfig,
    /// What `DFU_UPLOAD` serves: `"sysinfo"` to report the device's system
    /// information.
    pub upload: Option<String>,
    /// Maximum bytes per DFU control-write transaction.
    pub transfer_size: Option<u16>,
    /// `bwPollTimeout` reported in `DFU_GETSTATUS`, in milliseconds.
    pub poll_timeout_ms: Option<u32>,
}

impl DfuFnConfig {
    /// Uploads, where they are served, serve the system information.
    pub open spec fn upload_supported(self) -> bool {
        self.upload matches Some(target) ==> target@ == "sysinfo"@
    }

    /// Whether `config` is this section with defaults filled in.
    pub open spec fn configures(
        self,
        serial: Seq<char>,
        base: BaseSystemInfo,
        boot: BootRootfsInfo,
        config: DfuConfig,
    ) -> bool {
        &&& self.swupdate.gives(config.download)
        &&& config.upload is Some <==> self.upload is Some
        &&& config.upload matches Some(source) ==> source.bytes() == machine_json(
            serial,
            base,
            boot,
        )
        &&& config.transfer_size == (match self.transfer_size {
            Some(size) => size,
            None => DEFAULT_TRANSFER_SIZE,
        })
        &&& config.poll_timeout_ms == (match self.poll_timeout_ms {
            Some(ms) => ms,
            None => DEFAULT_POLL_TIMEOUT_MS,
        })
    }

    /// Converts the section into runtime settings. A target for uploads other
    /// than `sysinfo` is rejected first, then update settings that are.
    pub fn to_config(&self, serial: &str, base: &BaseSystemInfo, boot: &BootRootfsInfo) -> (config:
        Result<DfuConfig, DfuConfigError>)
        ensures
            config is Ok <==> self.upload_supported() && self.swupdate.target_supported(),
            config matches Ok(c) ==> self.configures(serial@, *base, *boot, c),
            config matches Err(e) ==> match e {
                DfuConfigError::UnsupportedUploadTarget(t) => !self.upload_supported() && Some(t@)
                    == opt_text(self.upload),
                DfuConfigError::Swupdate(SwupdateConfigError::UnsupportedDownloadTarget(t)) =>
                    self.upload_supported() && Some(t@) == opt_text(self.swupdate.download),
            },
    {
        let upload = match &self.upload {
            None => None,
            Some(target) => {
                if !same_text(target.as_str(), "sysinfo") {
                    return Err(DfuConfigError::UnsupportedUploadTarget(target.clone()));
                }
                let info = SystemInfo::collect(Some(serial.to_owned()), base, boot);
                let report = info.to_json_bytes();
                Some(UploadSource::Data(shared_from_vec(report)))
            },
        };
        let download = match self.swupdate.to_params() {
            Ok(params) => params,
            Err(err) => {
                return Err(DfuConfigError::Swupdate(err));
            },
        };
        Ok(
            DfuConfig {
                download,
                upload,
                transfer_size: match self.transfer_size {
                    Some(size) => size,
                    None => DEFAULT_TRANSFER_SIZE,
                },
                poll_timeout_ms: match self.poll_timeout_ms {
                    Some(ms) => ms,
                    None => DEFAULT_POLL_TIMEOUT_MS,
                },
            },
        )
    }
}

// ---------------------------------------------------------------------------
// Laws
// ---------------------------------------------------------------------------

/// What the host is told of the device: it takes downloads, serves uploads where it
/// has something to serve, communicates after manifestation, does not detach by
/// itself, and speaks DFU 1.1.
pub proof fn law_descriptor(config: DfuConfig, desc: DfuDesc)
    requires
        call_ensures(DfuConfig::descriptor, (&config,), desc),
    ensures
        desc.can_download && desc.manifest_tolerant && !desc.will_detach,
        desc.can_upload <==> config.upload is Some,
        desc.detach_timeout_ms == 1000,
        desc.transfer_size == config.transfer_size,
        desc.version_major == 1 && desc.version_minor == 1,
{
}

/// A section is taken unless it names a target that cannot be served: uploads serve
/// the report of the machine under the serial number. What is not set is 4096 bytes
/// per transaction and a poll timeout of 10 milliseconds.
pub proof fn law_section(
    section: DfuFnConfig,
    serial: &str,
    name: String,
    base: BaseSystemInfo,
    boot: BootRootfsInfo,
    info: SystemInfo,
    report: Vec<u8>,
    config: Result<DfuConfig, DfuConfigError>,
)
    requires
        name@ == serial@,
        call_ensures(SystemInfo::collect, (Some(name), &base, &boot), info),
        call_ensures(SystemInfo::to_json_bytes, (&info,), report),
        call_ensures(DfuFnConfig::to_config, (&section, serial, &base, &boot), config),
    ensures
        config is Ok <==> (section.upload is None || section.upload->0@ == "sysinfo"@) && (
        section.swupdate.download is None || section.swupdate.download->0@ == "swupdate"@),
        config matches Ok(c) ==> {
            &&& section.upload is None ==> c.upload is None
            &&& section.upload is Some ==> (c.upload matches Some(source) && source.bytes()
                == report@)
            &&& section.transfer_size matches Some(n) ==> c.transfer_size == n
            &&& section.transfer_size is None ==> c.transfer_size == 4096
            &&& section.poll_timeout_ms matches Some(n) ==> c.poll_timeout_ms == n
            &&& section.poll_timeout_ms is None ==> c.poll_timeout_ms == 10
            &&& c.download.dry_run <==> section.swupdate.dry_run == Some(true)
        },
        config matches Err(e) ==> {
            &&& section.upload is Some && section.upload->0@ != "sysinfo"@ ==> (
            e matches DfuConfigError::UnsupportedUploadTarget(t) && t@ == section.upload->0@)
            &&& section.upload is None || section.upload->0@ == "sysinfo"@ ==> e is Swupdate
        },
{
}

/// What the user is told of a section that was rejected.
pub proof fn law_rejected_section(
    target: String,
    err: SwupdateConfigError,
    text: String,
    inner: String,
    passed_on: String,
)
    requires
        call_ensures(
            DfuConfigError::message,
            (&DfuConfigError::UnsupportedUploadTarget(target),),
            text,
        ),
        call_ensures(SwupdateConfigError::message, (&err,), inner),
        call_ensures(DfuConfigError::message, (&DfuConfigError::Swupdate(err),), passed_on),
    ensures
        text@ == "unsupported insecure upload target "@ + debug_quoted(target@)
            + "; only \"sysinfo\" is allowed"@,
        passed_on@ == inner@,
{
}

} // verus!
