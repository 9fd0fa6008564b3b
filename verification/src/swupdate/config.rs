//! Settings of an update, and which kind of update the machine takes.

use core::time::Duration;
use vstd::prelude::*;

use crate::fault::TransportErrnos;
use crate::sysinfo::runtime::{inactive_side, other_side, BootRootfsInfo};
use crate::text::{debug_quoted, debug_text, joined, opt_text, same_text};
use crate::time::seconds;

verus! {

/// Update settings as they appear in the configuration file.
#[derive(Debug, Clone, PartialEq, Eq)]
pub struct SwupdateConfig {
    /// Where downloads go; only `swupdate` is known.
    pub download: Option<String>,
    /// Software set to select.
    pub software_set: Option<String>,
    /// Prefix of the running mode.
    pub image_mode: Option<String>,
    /// Validate images without writing them.
    pub dry_run: Option<bool>,
    /// Keep SWUpdate from storing the received file.
    pub disable_store_swu: Option<bool>,
    /// Time allowed for an update, in seconds.
    pub timeout_secs: Option<u64>,
}

impl Default for SwupdateConfig {
    fn default() -> (config: Self)
        ensures
            config.download is None,
            config.software_set is None,
            config.image_mode is None,
            config.dry_run is None,
            config.disable_store_swu is None,
            config.timeout_secs is None,
    {
        SwupdateConfig {
            download: None,
            software_set: None,
            image_mode: None,
            dry_run: None,
            disable_store_swu: None,
            timeout_secs: None,
        }
    }
}

/// Why update settings were rejected.
#[derive(Debug)]
pub enum SwupdateConfigError {
    /// Downloads cannot go to this target.
    UnsupportedDownloadTarget(String),
}

impl SwupdateConfigError {
    /// A description for the user.
    pub open spec fn text(self) -> Seq<char> {
        match self {
            SwupdateConfigError::UnsupportedDownloadTarget(target) =>
            "unsupported download target "@ + debug_quoted(target@)
                + "; expected \"swupdate\""@,
        }
    }

    /// A description for the user.
    pub fn message(&self) -> (text: String)
        ensures
            text@ == self.text(),
    {
        match self {
            SwupdateConfigError::UnsupportedDownloadTarget(target) => {
                let quoted = debug_text(target.as_str());
                let start = joined("unsupported download target ", quoted.as_str());
                joined(start.as_str(), "; expected \"swupdate\"")
            },
        }
    }
}

/// Settings of an update, with defaults filled in.
#[derive(Debug, PartialEq, Eq)]
pub struct SwupdateParams {
    /// Software set to select.
    pub software_set: Option<String>,
    /// Prefix of the running mode.
    pub image_mode: Option<String>,
    /// Validate images without writing them.
    pub dry_run: bool,
    /// Keep SWUpdate from storing the received file.
    pub disable_store_swu: bool,
    /// Time allowed for an update.
    pub timeout: Duration,
}

impl Default for SwupdateParams {
    fn default() -> (params: Self)
        ensures
            params.software_set is None,
            params.image_mode is None,
            !params.dry_run,
            params.disable_store_swu,
            params.timeout == seconds(120),
    {
        SwupdateParams {
            software_set: None,
            image_mode: None,
            dry_run: false,
            disable_store_swu: true,
            timeout: Duration::from_secs(120),
        }
    }
}

/// A copy of an optional string.
pub fn copy_text(s: &Option<String>) -> (copy: Option<String>)
    ensures
        copy == *s,
{
    match s {
        Some(s) => Some(s.clone()),
        None => None,
    }
}

impl Clone for SwupdateParams {
    fn clone(&self) -> (copy: Self)
        ensures
            copy == *self,
    {
        SwupdateParams {
            software_set: copy_text(&self.software_set),
            image_mode: copy_text(&self.image_mode),
            dry_run: self.dry_run,
            disable_store_swu: self.disable_store_swu,
            timeout: self.timeout,
        }
    }
}

impl SwupdateConfig {
    /// Downloads go to SWUpdate.
    pub open spec fn target_supported(self) -> bool {
        self.download matches Some(target) ==> target@ == "swupdate"@
    }

    /// Whether `params` are these settings with defaults filled in.
    pub open spec fn gives(self, params: SwupdateParams) -> bool {
        &&& params.software_set == self.software_set
        &&& params.image_mode == self.image_mode
        &&& params.dry_run == (self.dry_run == Some(true))
        &&& params.disable_store_swu == (self.disable_store_swu != Some(false))
        &&& params.timeout == seconds(
            match self.timeout_secs {
                Some(secs) => secs,
                None => 120,
            },
        )
    }

    /// Resolves the settings. They are rejected exactly when downloads go to a
    /// target other than `swupdate`; the error names it.
    pub fn to_params(&self) -> (params: Result<SwupdateParams, SwupdateConfigError>)
        ensures
            params is Ok <==> self.target_supported(),
            params matches Ok(p) ==> self.gives(p),
            params matches Err(SwupdateConfigError::UnsupportedDownloadTarget(t)) ==> Some(t@)
                == opt_text(self.download),
    {
        match &self.download {
            Some(target) => {
                if !same_text(target.as_str(), "swupdate") {
                    return Err(
                        SwupdateConfigError::UnsupportedDownloadTarget(target.clone()),
                    );
                }
            },
            None => {},
        }
        Ok(
            SwupdateParams {
                software_set: copy_text(&self.software_set),
                image_mode: copy_text(&self.image_mode),
                dry_run: match self.dry_run {
                    Some(dry_run) => dry_run,
                    None => false,
                },
                disable_store_swu: match self.disable_store_swu {
                    Some(disable) => disable,
                    None => true,
                },
                timeout: Duration::from_secs(
                    match self.timeout_secs {
                        Some(secs) => secs,
                        None => 120,
                    },
                ),
            },
        )
    }
}

/// What the machine that is updated looks like at the moment.
#[derive(Debug)]
pub struct UpdateHost {
    /// A restart is due after a successful update.
    pub restart_pending: bool,
    /// Boot context.
    pub boot: BootRootfsInfo,
    /// The operating system's error numbers.
    pub errnos: TransportErrnos,
}

/// The kind of update that a machine takes.
#[derive(Debug, Clone, PartialEq, Eq)]
pub enum EffectiveUpdateType {
    /// The whole device is replaced.
    Complete,
    /// The inactive slot is replaced.
    Slot {
        /// Running mode that selects the slot.
        running_mode: String,
    },
}

/// The kind of update, with its running mode.
pub enum UpdateKind {
    /// The whole device is replaced.
    Complete,
    /// The inactive slot is replaced.
    Slot(Seq<char>),
}

impl View for EffectiveUpdateType {
    type V = UpdateKind;

    open spec fn view(&self) -> UpdateKind {
        match self {
            EffectiveUpdateType::Complete => UpdateKind::Complete,
            EffectiveUpdateType::Slot { running_mode } => UpdateKind::Slot(running_mode@),
        }
    }
}

/// The kind of update for these settings on a machine with this boot context:
/// complete where there is one slot only, and otherwise into the inactive slot,
/// which the image mode (by default `full`) and the side name together.
pub open spec fn update_kind(params: SwupdateParams, boot: BootRootfsInfo) -> UpdateKind {
    if boot.single_slot() {
        UpdateKind::Complete
    } else {
        UpdateKind::Slot(
            (match params.image_mode {
                Some(mode) => mode@,
                None => "full"@,
            }) + "-"@ + other_side(boot.side()),
        )
    }
}

/// The running mode that a kind of update asks SWUpdate for.
pub open spec fn running_mode(kind: UpdateKind) -> Seq<char> {
    match kind {
        UpdateKind::Complete => "complete"@,
        UpdateKind::Slot(mode) => mode,
    }
}

impl EffectiveUpdateType {
    /// The kind of update for these settings on a machine with this boot
    /// context.
    pub fn resolve(params: &SwupdateParams, info: &BootRootfsInfo) -> (kind: Self)
        ensures
            kind@ == update_kind(*params, *info),
    {
        if info.is_running_on_sd() || info.is_running_on_initramfs() {
            EffectiveUpdateType::Complete
        } else {
            let side = inactive_side(info.current_side_option());
            let mode = match &params.image_mode {
                Some(mode) => mode.as_str(),
                None => "full",
            };
            let prefix = joined(mode, "-");
            EffectiveUpdateType::Slot { running_mode: joined(prefix.as_str(), side) }
        }
    }

    /// Whether the whole device is replaced.
    pub fn is_complete(&self) -> (r: bool)
        ensures
            r == (self@ is Complete),
    {
        matches!(self, EffectiveUpdateType::Complete)
    }

    /// The running mode to ask SWUpdate for.
    pub fn mode_text(&self) -> (mode: String)
        ensures
            mode@ == running_mode(self@),
    {
        match self {
            EffectiveUpdateType::Complete => "complete".to_owned(),
            EffectiveUpdateType::Slot { running_mode } => running_mode.clone(),
        }
    }
}

/// An update never goes to the side that is running, whatever the settings:
/// where there are two slots, the running mode ends in the opposite side, and
/// in nothing that the settings could change.
pub proof fn law_never_the_running_side(params: SwupdateParams, boot: BootRootfsInfo)
    requires
        !boot.single_slot(),
    ensures
        ({
            let mode = running_mode(update_kind(params, boot));
            let side = other_side(boot.side());
            &&& mode.len() >= 2
            &&& mode.skip(mode.len() - 2) == "-"@ + side
            &&& boot.side() matches Some(running) ==> side != running
        }),
{
    reveal_strlit("-");
    reveal_strlit("a");
    reveal_strlit("b");
    assert("a"@[0] != "b"@[0]);
    let mode = running_mode(update_kind(params, boot));
    let side = other_side(boot.side());
    assert(mode.skip(mode.len() - 2) =~= "-"@ + side);
}

/// The settings are taken over as they stand. What is not set counts as an install
/// (no dry run) that is not stored and may take 120 seconds.
pub proof fn law_settings(
    config: SwupdateConfig,
    params: Result<SwupdateParams, SwupdateConfigError>,
    unset: SwupdateParams,
)
    requires
        call_ensures(SwupdateConfig::to_params, (&config,), params),
        call_ensures(SwupdateParams::default, (), unset),
    ensures
        params is Ok <==> (config.download is None || config.download->0@ == "swupdate"@),
        params matches Ok(p) ==> {
            &&& p.software_set == config.software_set
            &&& p.image_mode == config.image_mode
            &&& p.dry_run <==> config.dry_run == Some(true)
            &&& !p.disable_store_swu <==> config.disable_store_swu == Some(false)
            &&& config.timeout_secs matches Some(secs) ==> p.timeout == seconds(secs)
            &&& config.timeout_secs is None ==> p.timeout == seconds(120)
        },
        params matches Err(SwupdateConfigError::UnsupportedDownloadTarget(t)) ==> (
        config.download matches Some(target) && t@ == target@),
        unset.software_set is None && unset.image_mode is None && !unset.dry_run
            && unset.disable_store_swu && unset.timeout == seconds(120),
{
}

/// A rejected target is named to the user.
pub proof fn law_rejected_target(target: String, text: String)
    requires
        call_ensures(
            SwupdateConfigError::message,
            (&SwupdateConfigError::UnsupportedDownloadTarget(target),),
            text,
        ),
    ensures
        text@ == "unsupported download target "@ + debug_quoted(target@) + "; expected \"swupdate\""@,
{
}

/// A machine that runs from an SD card or an initramfs takes a complete update.
/// Any other one takes an update of the side that does not run, `a` where `b` runs
/// and `b` otherwise, behind the image mode, which is `full` unless it is set.
pub proof fn law_kind_of_update(
    params: SwupdateParams,
    boot: BootRootfsInfo,
    kind: EffectiveUpdateType,
    complete: bool,
    mode: String,
)
    requires
        call_ensures(EffectiveUpdateType::resolve, (&params, &boot), kind),
        call_ensures(EffectiveUpdateType::is_complete, (&kind,), complete),
        call_ensures(EffectiveUpdateType::mode_text, (&kind,), mode),
    ensures
        complete <==> boot.root_dev_type@ == "SD"@ || boot.root_dev_type@ == "initramfs"@,
        complete ==> kind is Complete && mode@ == "complete"@,
        !complete ==> kind is Slot,
        !complete ==> ({
            let prefix = match params.image_mode {
                Some(m) => m@,
                None => "full"@,
            };
            &&& boot.current_side@ == "b"@ ==> mode@ == prefix + "-"@ + "a"@
            &&& boot.current_side@ != "b"@ ==> mode@ == prefix + "-"@ + "b"@
        }),
{
    reveal_strlit("a");
    reveal_strlit("b");
    assert("a"@[0] != "b"@[0]);
}

/// Settings that the configuration file does not give are not set.
pub proof fn law_unset(config: SwupdateConfig)
    requires
        call_ensures(SwupdateConfig::default, (), config),
    ensures
        config.download is None && config.software_set is None && config.image_mode is None,
        config.dry_run is None && config.disable_store_swu is None && config.timeout_secs is None,
{
}

} // verus!
