//! Settings of fastboot over TCP.

use core::time::Duration;
use vstd::prelude::*;

use crate::swupdate::config::{SwupdateConfig, SwupdateConfigError, SwupdateParams};
use crate::text::opt_text;
use crate::time::seconds;

verus! {

/// Name of the section of the configuration file.
pub const FASTBOOT_TCP_SECTION: &'static str = "fastboot_tcp";

/// Capacity of every download read buffer.
pub const RECV_BUFFER_SIZE: usize = 131072;

/// Serial number told to hosts where none is configured.
pub const DEFAULT_SERIAL: &'static str = "unknown";

/// The `[fastboot_tcp]` section of the configuration file.
#[derive(Debug, Clone)]
pub struct FastbootTcpConfig {
    /// Listen address.
    pub address: String,
    /// Time to wait for a host, in seconds; without it the wait has no end.
    pub accept_timeout_secs: Option<u64>,
    /// Idle timeout of an established connection, in seconds; zero disables it.
    pub inactivity_timeout_secs: u64,
    /// Grace period for the connection shutdown handshake, in seconds.
    pub shutdown_timeout_secs: u64,
    /// Serial number told to hosts.
    pub serial: String,
    /// Update settings.
    pub swupdate: SwupdateConfig,
}

impl Default for FastbootTcpConfig {
    fn default() -> (config: Self)
        ensures
            config.address@ == "0.0.0.0:5554"@,
            config.accept_timeout_secs is None,
            config.inactivity_timeout_secs == 30,
            config.shutdown_timeout_secs == 15,
            config.serial@ == DEFAULT_SERIAL@,
            config.swupdate.download is None,
            config.swupdate.software_set is None,
            config.swupdate.image_mode is None,
            config.swupdate.dry_run is None,
            config.swupdate.disable_store_swu is None,
            config.swupdate.timeout_secs is None,
    {
        FastbootTcpConfig {
            address: "0.0.0.0:5554".to_owned(),
            accept_timeout_secs: None,
            inactivity_timeout_secs: 30,
            shutdown_timeout_secs: 15,
            serial: DEFAULT_SERIAL.to_owned(),
            swupdate: SwupdateConfig::default(),
        }
    }
}

impl FastbootTcpConfig {
    /// Resolves the update settings; see [`SwupdateConfig::to_params`].
    pub fn to_swupdate_params(&self) -> (params: Result<SwupdateParams, SwupdateConfigError>)
        ensures
            params is Ok <==> self.swupdate.target_supported(),
            params matches Ok(p) ==> self.swupdate.gives(p),
            params matches Err(SwupdateConfigError::UnsupportedDownloadTarget(t)) ==> Some(t@)
                == opt_text(self.swupdate.download),
    {
        self.swupdate.to_params()
    }

    /// How long to wait for a host.
    pub fn accept_timeout(&self) -> (timeout: Option<Duration>)
        ensures
            timeout == (match self.accept_timeout_secs {
                Some(secs) => Some(seconds(secs)),
                None => None,
            }),
    {
        match self.accept_timeout_secs {
            Some(secs) => Some(Duration::from_secs(secs)),
            None => None,
        }
    }

    /// How long to wait for data.
    pub fn inactivity_timeout(&self) -> (timeout: Option<Duration>)
        ensures
            timeout == (if self.inactivity_timeout_secs == 0 {
                None
            } else {
                Some(seconds(self.inactivity_timeout_secs))
            }),
    {
        if self.inactivity_timeout_secs == 0 {
            None
        } else {
            Some(Duration::from_secs(self.inactivity_timeout_secs))
        }
    }

    /// How long to wait for the connection to close.
    pub fn shutdown_timeout(&self) -> (timeout: Duration)
        ensures
            timeout == seconds(self.shutdown_timeout_secs),
    {
        Duration::from_secs(self.shutdown_timeout_secs)
    }
}

/// The settings that count where the section does not give them.
pub proof fn law_default_settings(config: FastbootTcpConfig)
    requires
        call_ensures(FastbootTcpConfig::default, (), config),
    ensures
        config.address@ == "0.0.0.0:5554"@,
        config.accept_timeout_secs is None,
        config.inactivity_timeout_secs == 30,
        config.shutdown_timeout_secs == 15,
        config.serial@ == "unknown"@,
        FASTBOOT_TCP_SECTION@ == "fastboot_tcp"@,
{
}

/// The timeouts are in seconds; an idle timeout of zero is none.
pub proof fn law_timeouts(
    config: FastbootTcpConfig,
    accept: Option<Duration>,
    idle: Option<Duration>,
    shutdown: Duration,
)
    requires
        call_ensures(FastbootTcpConfig::accept_timeout, (&config,), accept),
        call_ensures(FastbootTcpConfig::inactivity_timeout, (&config,), idle),
        call_ensures(FastbootTcpConfig::shutdown_timeout, (&config,), shutdown),
    ensures
        config.accept_timeout_secs matches Some(secs) ==> accept == Some(seconds(secs)),
        config.accept_timeout_secs is None ==> accept is None,
        config.inactivity_timeout_secs == 0 ==> idle is None,
        config.inactivity_timeout_secs > 0 ==> idle == Some(
            seconds(config.inactivity_timeout_secs),
        ),
        shutdown == seconds(config.shutdown_timeout_secs),
{
}

/// The update settings of the section are taken over like any others.
pub proof fn law_update_settings(
    config: FastbootTcpConfig,
    params: Result<SwupdateParams, SwupdateConfigError>,
    same: Result<SwupdateParams, SwupdateConfigError>,
)
    requires
        call_ensures(FastbootTcpConfig::to_swupdate_params, (&config,), params),
        call_ensures(SwupdateConfig::to_params, (&config.swupdate,), same),
    ensures
        params is Ok <==> same is Ok,
        params matches Ok(p) ==> p == same->Ok_0,
{
}

} // verus!
