//! The functions that this program services itself, as parts of a gadget.

use vstd::prelude::*;

use crate::dfu::config::DfuFnConfig;
use crate::dfu::gadget::DfuRuntime;
use crate::fastboot_usb::gadget::{FastbootUsbFnConfig, FastbootUsbRuntime};
use crate::fbk::{FbkFnConfig, FbkRuntime};
use crate::sysinfo::runtime::{BaseSystemInfo, BootRootfsInfo};
use crate::text::{debug_quoted, debug_text, joined, same_text, texts};

verus! {

/// A function that has to be serviced once the gadget is bound.
#[derive(Debug)]
pub enum GadgetService {
    /// A DFU function.
    Dfu(DfuRuntime),
    /// A fastboot-usb function.
    FastbootUsb(FastbootUsbRuntime),
    /// An FBK function.
    Fbk(FbkRuntime),
}

/// What building the functions of a gadget has come to so far.
#[derive(Debug)]
pub struct FunctionBuildContext {
    /// Kinds of function that there may be only one of and that is there.
    pub claimed_singletons: Vec<String>,
    /// The functions that have to be serviced, in the order of the
    /// configuration.
    pub services: Vec<GadgetService>,
}

impl Default for FunctionBuildContext {
    fn default() -> (context: Self)
        ensures
            context.wf(),
            context.claimed() == Set::<Seq<char>>::empty(),
            context.services@ == Seq::<GadgetService>::empty(),
    {
        let context = FunctionBuildContext {
            claimed_singletons: Vec::new(),
            services: Vec::new(),
        };
        assert(context.claimed() =~= Set::empty());
        context
    }
}

/// The message about a second function of a kind.
pub open spec fn second_function(kind: Seq<char>) -> Seq<char> {
    "configuration declares more than one "@ + kind + " function"@
}

impl FunctionBuildContext {
    /// No kind is claimed twice.
    pub open spec fn wf(self) -> bool {
        texts(self.claimed_singletons@).no_duplicates()
    }

    /// The kinds that are claimed.
    pub open spec fn claimed(self) -> Set<Seq<char>> {
        texts(self.claimed_singletons@).to_set()
    }

    /// Claims a kind of function that there may be only one of. That is
    /// refused exactly when it is claimed already.
    pub fn claim_singleton(&mut self, kind: &str) -> (claim: Result<(), String>)
        requires
            old(self).wf(),
        ensures
            final(self).wf(),
            claim is Err <==> old(self).claimed().contains(kind@),
            claim is Ok ==> final(self).claimed() == old(self).claimed().insert(kind@),
            claim matches Err(e) ==> e@ == second_function(kind@) && *final(self) == *old(self),
            final(self).services == old(self).services,
    {
        let ghost claimed = texts(self.claimed_singletons@);
        let mut i: usize = 0;
        while i < self.claimed_singletons.len()
            invariant
                i <= self.claimed_singletons.len(),
                *self == *old(self),
                old(self).wf(),
                claimed == texts(self.claimed_singletons@),
                forall|j: int| 0 <= j < i ==> #[trigger] claimed[j] != kind@,
            decreases self.claimed_singletons.len() - i,
        {
            if same_text(self.claimed_singletons[i].as_str(), kind) {
                assert(claimed[i as int] == kind@);
                let start = joined("configuration declares more than one ", kind);
                return Err(joined(start.as_str(), " function"));
            }
            assert(claimed[i as int] != kind@);
            i += 1;
        }
        assert(!claimed.contains(kind@));
        self.claimed_singletons.push(kind.to_owned());
        proof {
            let now = texts(self.claimed_singletons@);
            assert(now =~= claimed.push(kind@));
            assert(now.no_duplicates());
            assert(self.claimed() =~= old(self).claimed().insert(kind@)) by {
                assert forall|k: Seq<char>| old(self).claimed().contains(k) || k == kind@ implies
                    #[trigger] self.claimed().contains(k) by {
                    if k == kind@ {
                        assert(now[claimed.len() as int] == k);
                    } else {
                        let j = choose|j: int| 0 <= j < claimed.len() && claimed[j] == k;
                        assert(now[j] == k);
                    }
                }
            }
        }
        Ok(())
    }

    /// Adds a function that has to be serviced.
    pub fn push_service(&mut self, service: GadgetService)
        ensures
            final(self).services@ == old(self).services@.push(service),
            final(self).claimed_singletons == old(self).claimed_singletons,
    {
        self.services.push(service);
    }

    /// The functions that have to be serviced.
    pub fn into_services(self) -> (services: Vec<GadgetService>)
        ensures
            services == self.services,
    {
        self.services
    }
}

/// The section of a function that this program services itself.
#[derive(Debug, Clone)]
pub enum PluginFunction {
    /// A DFU function.
    Dfu(DfuFnConfig),
    /// A fastboot-usb function.
    FastbootUsb(FastbootUsbFnConfig),
    /// An FBK function.
    Fbk(FbkFnConfig),
}

/// The name of a kind of function that this program services itself.
pub open spec fn plugin_kind(function: PluginFunction) -> Seq<char> {
    match function {
        PluginFunction::Dfu(_) => "dfu"@,
        PluginFunction::FastbootUsb(_) => "fastboot-usb"@,
        PluginFunction::Fbk(_) => "fbk"@,
    }
}

impl PluginFunction {
    /// The kind of the function.
    pub fn kind(&self) -> (kind: &'static str)
        ensures
            kind@ == plugin_kind(*self),
    {
        match self {
            PluginFunction::Dfu(_) => "dfu",
            PluginFunction::FastbootUsb(_) => "fastboot-usb",
            PluginFunction::Fbk(_) => "fbk",
        }
    }

    /// The section can be serviced.
    pub open spec fn supported(self) -> bool {
        match self {
            PluginFunction::Dfu(cfg) => cfg.upload_supported() && cfg.swupdate.target_supported(),
            PluginFunction::FastbootUsb(cfg) => cfg.swupdate.target_supported(),
            PluginFunction::Fbk(cfg) => cfg.swupdate.target_supported(),
        }
    }

    /// Whether `service` services this section.
    pub open spec fn serviced_by(
        self,
        service: GadgetService,
        serial: Seq<char>,
        base: BaseSystemInfo,
        boot: BootRootfsInfo,
        rx_max_packet_size_default: u16,
    ) -> bool {
        match (self, service) {
            (PluginFunction::Dfu(cfg), GadgetService::Dfu(r)) => {
                &&& cfg.configures(serial, base, boot, r.config)
                &&& r.descriptor == r.config.spec_descriptor()
            },
            (PluginFunction::FastbootUsb(cfg), GadgetService::FastbootUsb(r)) => {
                &&& cfg.swupdate.gives(r.download)
                &&& r.serial@ == serial
                &&& r.rx_max_packet_size_default == rx_max_packet_size_default
            },
            (PluginFunction::Fbk(cfg), GadgetService::Fbk(r)) => {
                &&& cfg.swupdate.gives(r.download)
                &&& r.serial@ == serial
            },
            _ => false,
        }
    }

    /// Builds the function into the gadget. There may be only one of its kind;
    /// a section that cannot be serviced is skipped (`Ok(false)`), but counts
    /// as the one of its kind.
    pub fn build(
        &self,
        serial: &str,
        base: &BaseSystemInfo,
        boot: &BootRootfsInfo,
        rx_max_packet_size_default: u16,
        context: &mut FunctionBuildContext,
    ) -> (built: Result<bool, String>)
        requires
            old(context).wf(),
        ensures
            final(context).wf(),
            built is Err <==> old(context).claimed().contains(plugin_kind(*self)),
            built matches Err(e) ==> e@ == second_function(plugin_kind(*self)) && *final(context)
                == *old(context),
            built is Ok ==> final(context).claimed() == old(context).claimed().insert(
                plugin_kind(*self),
            ),
            built matches Ok(b) ==> b == self.supported(),
            built == Ok::<bool, String>(false) ==> final(context).services == old(context).services,
            built == Ok::<bool, String>(true) ==> exists|service: GadgetService| #[trigger]
                self.serviced_by(service, serial@, *base, *boot, rx_max_packet_size_default)
                    && final(context).services@ == old(context).services@.push(service),
    {
        match context.claim_singleton(self.kind()) {
            Ok(()) => {},
            Err(err) => {
                return Err(err);
            },
        }
        let service = match self {
            PluginFunction::Dfu(cfg) => match crate::dfu::gadget::build(cfg, serial, base, boot) {
                Ok(runtime) => GadgetService::Dfu(runtime),
                Err(_err) => {
                    return Ok(false);
                },
            },
            PluginFunction::FastbootUsb(cfg) => match crate::fastboot_usb::gadget::build(
                cfg,
                serial,
                rx_max_packet_size_default,
            ) {
                Ok(runtime) => GadgetService::FastbootUsb(runtime),
                Err(_err) => {
                    return Ok(false);
                },
            },
            PluginFunction::Fbk(cfg) => match crate::fbk::build(cfg, serial) {
                Ok(runtime) => GadgetService::Fbk(runtime),
                Err(_err) => {
                    return Ok(false);
                },
            },
        };
        assert(self.serviced_by(service, serial@, *base, *boot, rx_max_packet_size_default));
        context.push_service(service);
        Ok(true)
    }
}

/// How often a text occurs in a list.
pub open spec fn occurrences(list: Seq<Seq<char>>, text: Seq<char>) -> nat
    decreases list.len(),
{
    if list.len() == 0 {
        0
    } else {
        occurrences(list.drop_last(), text) + (if list.last() == text {
            1nat
        } else {
            0
        })
    }
}

proof fn lemma_occurrences_grow(list: Seq<Seq<char>>, n: int, text: Seq<char>)
    requires
        0 <= n <= list.len(),
    ensures
        occurrences(list.take(n), text) <= occurrences(list, text),
    decreases list.len() - n,
{
    if n < list.len() {
        lemma_occurrences_grow(list, n + 1, text);
        assert(list.take(n + 1).drop_last() =~= list.take(n));
    } else {
        assert(list.take(n) =~= list);
    }
}

/// Finds the registration for a kind of function among the kinds that are
/// registered. A kind that nobody has registered is not found; one that is
/// registered more than once is an error.
pub fn parse_function(kind: &str, registered: &Vec<String>) -> (found: Result<Option<usize>, String>)
    ensures
        ({
            let n = occurrences(texts(registered@), kind@);
            match found {
                Ok(Some(i)) => n == 1 && i < registered@.len() && registered@[i as int]@ == kind@,
                Ok(None) => n == 0,
                Err(e) => n >= 2 && e@ == "multiple USB function registrations found for type "@
                    + debug_quoted(kind@),
            }
        }),
{
    let ghost all = texts(registered@);
    let mut found: Option<usize> = None;
    let mut i: usize = 0;
    assert(all.take(0) =~= Seq::empty());
    while i < registered.len()
        invariant
            i <= registered.len(),
            all == texts(registered@),
            match found {
                Some(k) => k < i && registered@[k as int]@ == kind@ && occurrences(
                    all.take(i as int),
                    kind@,
                ) == 1,
                None => occurrences(all.take(i as int), kind@) == 0,
            },
        decreases registered.len() - i,
    {
        assert(all.take(i + 1).drop_last() =~= all.take(i as int));
        assert(all.take(i + 1).last() == registered@[i as int]@);
        if same_text(registered[i].as_str(), kind) {
            if found.is_some() {
                proof {
                    lemma_occurrences_grow(all, i + 1, kind@);
                }
                let quoted = debug_text(kind);
                return Err(
                    joined("multiple USB function registrations found for type ", quoted.as_str()),
                );
            }
            found = Some(i);
        }
        i += 1;
    }
    assert(all.take(all.len() as int) =~= all);
    Ok(found)
}

// ---------------------------------------------------------------------------
// Laws
// ---------------------------------------------------------------------------

proof fn lemma_occurrences(list: Seq<Seq<char>>, text: Seq<char>)
    ensures
        (forall|i: int| 0 <= i < list.len() ==> #[trigger] list[i] != text) ==> occurrences(
            list,
            text,
        ) == 0,
        forall|i: int| 0 <= i < list.len() && #[trigger] list[i] == text ==> occurrences(list, text)
            >= 1,
    decreases list.len(),
{
    if list.len() > 0 {
        let rest = list.drop_last();
        lemma_occurrences(rest, text);
        if forall|i: int| 0 <= i < list.len() ==> #[trigger] list[i] != text {
            assert forall|i: int| 0 <= i < rest.len() implies #[trigger] rest[i] != text by {
                assert(rest[i] == list[i]);
            }
            assert(list.last() == list[list.len() - 1]);
        }
        assert forall|i: int| 0 <= i < list.len() && #[trigger] list[i] == text implies occurrences(
            list,
            text,
        ) >= 1 by {
            if i < rest.len() {
                assert(rest[i] == text);
            }
        }
    }
}

proof fn lemma_one_occurrence(list: Seq<Seq<char>>, text: Seq<char>, at: int)
    requires
        0 <= at < list.len(),
        list[at] == text,
    ensures
        (forall|i: int| 0 <= i < list.len() && i != at ==> #[trigger] list[i] != text)
            ==> occurrences(list, text) == 1,
        forall|i: int|
            0 <= i < list.len() && i != at && #[trigger] list[i] == text ==> occurrences(list, text)
                >= 2,
    decreases list.len(),
{
    let rest = list.drop_last();
    lemma_occurrences(rest, text);
    if at == list.len() - 1 {
        if forall|i: int| 0 <= i < list.len() && i != at ==> #[trigger] list[i] != text {
            assert forall|i: int| 0 <= i < rest.len() implies #[trigger] rest[i] != text by {
                assert(rest[i] == list[i]);
            }
        }
        assert forall|i: int|
            0 <= i < list.len() && i != at && #[trigger] list[i] == text implies occurrences(
            list,
            text,
        ) >= 2 by {
            assert(rest[i] == text);
        }
    } else {
        assert(rest[at] == text);
        lemma_one_occurrence(rest, text, at);
        if forall|i: int| 0 <= i < list.len() && i != at ==> #[trigger] list[i] != text {
            assert forall|i: int| 0 <= i < rest.len() && i != at implies #[trigger] rest[i]
                != text by {
                assert(rest[i] == list[i]);
            }
            assert(list.last() == list[list.len() - 1]);
        }
        assert forall|i: int|
            0 <= i < list.len() && i != at && #[trigger] list[i] == text implies occurrences(
            list,
            text,
        ) >= 2 by {
            if i < rest.len() {
                assert(rest[i] == text);
            } else {
                assert(list.last() == text);
            }
        }
    }
}

/// A kind that is registered once is found where it is; one that is not registered
/// is not found; and one that is registered twice is an error.
pub proof fn law_registrations(
    kind: &str,
    registered: Vec<String>,
    found: Result<Option<usize>, String>,
    at: int,
)
    requires
        call_ensures(parse_function, (kind, &registered), found),
    ensures
        (forall|i: int| 0 <= i < registered@.len() ==> #[trigger] registered@[i]@ != kind@) ==> (
        found matches Ok(n) && n is None),
        0 <= at < registered@.len() && registered@[at]@ == kind@ && (forall|i: int|
            0 <= i < registered@.len() && i != at ==> #[trigger] registered@[i]@ != kind@) ==> (
        found matches Ok(Some(i)) && i == at),
        (exists|i: int|
            0 <= at < registered@.len() && registered@[at]@ == kind@ && 0 <= i < registered@.len()
                && i != at && #[trigger] registered@[i]@ == kind@) ==> (found matches Err(e) && e@
            == "multiple USB function registrations found for type "@ + debug_quoted(kind@)),
{
    let all = texts(registered@);
    assert(all.len() == registered@.len());
    assert forall|i: int| 0 <= i < all.len() implies #[trigger] all[i] == registered@[i]@ by {}
    lemma_occurrences(all, kind@);
    if 0 <= at < registered@.len() && registered@[at]@ == kind@ {
        lemma_one_occurrence(all, kind@, at);
        if exists|i: int|
            0 <= i < registered@.len() && i != at && #[trigger] registered@[i]@ == kind@ {
            let i = choose|i: int|
                0 <= i < registered@.len() && i != at && #[trigger] registered@[i]@ == kind@;
            assert(all[i] == kind@);
        }
    }
}

/// The kinds of function that this program services itself.
pub proof fn law_plugin_kinds(function: PluginFunction, kind: &str)
    requires
        call_ensures(PluginFunction::kind, (&function,), kind),
    ensures
        function is Dfu ==> kind@ == "dfu"@,
        function is FastbootUsb ==> kind@ == "fastboot-usb"@,
        function is Fbk ==> kind@ == "fbk"@,
{
}

/// A kind can be claimed once.
pub proof fn law_claimed_once(
    context: &mut FunctionBuildContext,
    kind: &str,
    claim: Result<(), String>,
)
    requires
        old(context).wf(),
        call_ensures(FunctionBuildContext::claim_singleton, (context, kind), claim),
    ensures
        final(context).claimed().contains(kind@),
        claim is Ok <==> !old(context).claimed().contains(kind@),
        claim matches Err(e) ==> e@ == "configuration declares more than one "@ + kind@
            + " function"@,
        final(context).services == old(context).services,
{
}

/// A section is built once for its kind. One that names a target that cannot be
/// served is skipped; any other one is serviced by a function of its kind, behind
/// those before it.
pub proof fn law_built(
    function: PluginFunction,
    serial: &str,
    base: BaseSystemInfo,
    boot: BootRootfsInfo,
    packet: u16,
    context: &mut FunctionBuildContext,
    built: Result<bool, String>,
    update: crate::swupdate::config::SwupdateConfig,
    params: Result<
        crate::swupdate::config::SwupdateParams,
        crate::swupdate::config::SwupdateConfigError,
    >,
)
    requires
        old(context).wf(),
        function matches PluginFunction::Dfu(cfg) ==> update == cfg.swupdate,
        function matches PluginFunction::FastbootUsb(cfg) ==> update == cfg.swupdate,
        function matches PluginFunction::Fbk(cfg) ==> update == cfg.swupdate,
        call_ensures(crate::swupdate::config::SwupdateConfig::to_params, (&update,), params),
        call_ensures(
            PluginFunction::build,
            (&function, serial, &base, &boot, packet, context),
            built,
        ),
    ensures
        ({
            let swupdate = match function {
                PluginFunction::Dfu(cfg) => cfg.swupdate,
                PluginFunction::FastbootUsb(cfg) => cfg.swupdate,
                PluginFunction::Fbk(cfg) => cfg.swupdate,
            };
            let served = (swupdate.download is None || swupdate.download->0@ == "swupdate"@) && (
            function matches PluginFunction::Dfu(cfg) ==> cfg.upload is None || cfg.upload->0@
                == "sysinfo"@);
            let services = final(context).services@;
            let n = old(context).services@.len() as int;
            &&& built matches Ok(b) ==> (b <==> served)
            &&& built == Ok::<bool, String>(true) ==> services.len() == n + 1 && services.take(n)
                == old(context).services@
            &&& built == Ok::<bool, String>(true) ==> {
                &&& params is Ok
                &&& function is Dfu ==> (services[n] matches GadgetService::Dfu(r)
                    && r.config.download == params->Ok_0 && r.descriptor.can_download
                    && r.descriptor.transfer_size == r.config.transfer_size
                    && r.descriptor.can_upload == r.config.upload is Some
                    && r.descriptor.detach_timeout_ms == 1000)
                &&& function is FastbootUsb ==> (services[n] matches GadgetService::FastbootUsb(r)
                    && r.serial@ == serial@ && r.rx_max_packet_size_default == packet && r.download
                    == params->Ok_0)
                &&& function is Fbk ==> (services[n] matches GadgetService::Fbk(r) && r.serial@
                    == serial@ && r.download == params->Ok_0)
            }
            &&& built != Ok::<bool, String>(true) ==> services == old(context).services@
        }),
{
    if built == Ok::<bool, String>(true) {
        let service = choose|service: GadgetService| #[trigger]
            function.serviced_by(service, serial@, base, boot, packet) && final(context).services@
                == old(context).services@.push(service);
        let n = old(context).services@.len() as int;
        assert(final(context).services@.take(n) =~= old(context).services@);
    }
}

/// A new context has nothing claimed and nothing to service; what is added comes
/// last.
pub proof fn law_services(
    start: FunctionBuildContext,
    context: &mut FunctionBuildContext,
    service: GadgetService,
    all: Vec<GadgetService>,
)
    requires
        call_ensures(FunctionBuildContext::default, (), start),
        call_ensures(FunctionBuildContext::push_service, (context, service), ()),
        call_ensures(FunctionBuildContext::into_services, (*final(context),), all),
    ensures
        start.services@.len() == 0 && start.claimed() == Set::<Seq<char>>::empty(),
        all@ == old(context).services@.push(service),
        final(context).claimed() == old(context).claimed(),
{
}

} // verus!
