//! One fastboot-over-TCP client: its commands and its downloads.
//!
//! The commands mean the same as over USB. Each is one packet, and so is each
//! reply; a fault of the connection ends the session.

use bytes::BytesMut;
use tokio::task::JoinHandle;
use vstd::prelude::*;
use vstd::string::StringSliceAdditionalSpecFns;
use vstd::utf8::encode_utf8;

use crate::buffer::contents;
use crate::fastboot_proto::{
    command_at, data_header, data_header_text, fastboot_getvar_reply, parse_command, variable,
    Command, DownloadKind, ParsedCommand, FAIL_CLOSE, FAIL_CMD, FAIL_EPIPE, FAIL_FLASH, FAIL_OPEN,
    FAIL_UNKNOWN_PART, INFO_WAIT_SWUPDATE, OKAY,
};
use crate::fastboot_tcp::config::RECV_BUFFER_SIZE;
use crate::fastboot_tcp::transport::{encode_packet, frame};
use crate::fastboot_usb::commands::CommandStep;
use crate::fastboot_usb::state::{only, Act, FastbootUsbState};
use crate::fault::{ErrorKind, IoError};
use crate::swupdate::config::{SwupdateParams, UpdateHost};
use crate::swupdate::pump::{
    law_offered_in_order, law_pumped_in_order, offer_block, offered, pump_to_swupdate, pumped,
    PumpStep, PumpToSwupdateEnd,
};
use crate::swupdate::session::SwupdateSession;
use crate::sysinfo::runtime::{machine_json, Machine, SystemInfo};

verus! {

/// What comes after the replies to a command.
#[derive(Debug, Clone, Copy, PartialEq, Eq, Structural)]
pub enum TcpNext {
    /// The next command.
    Command,
    /// The data phase of a download of that many bytes, which is not zero.
    Download(usize),
    /// SWUpdate's verdict; it goes to [`TcpFastbootSession::finished`].
    Verdict,
}

/// What to do for a command: send these packets one after the other, which has
/// to succeed, and go on.
#[derive(Debug)]
pub struct TcpStep {
    /// Packets to send, each with its length prefix.
    pub packets: Vec<Vec<u8>>,
    /// What comes next.
    pub next: TcpNext,
}

/// The packets of a list of replies.
pub open spec fn frames(replies: Seq<Seq<u8>>) -> Seq<Seq<u8>> {
    Seq::new(replies.len(), |i: int| frame(replies[i]))
}

/// The bytes of a list of packets.
pub open spec fn packet_bytes(packets: Seq<Vec<u8>>) -> Seq<Seq<u8>> {
    Seq::new(packets.len(), |i: int| packets[i]@)
}

impl TcpStep {
    /// Whether this step sends these replies and goes on with `next`.
    pub open spec fn says(self, replies: Seq<Seq<u8>>, next: TcpNext) -> bool {
        packet_bytes(self.packets@) == frames(replies) && self.next == next
    }
}

fn no_packets() -> (packets: Vec<Vec<u8>>)
    ensures
        packet_bytes(packets@) == frames(Seq::empty()),
{
    let packets: Vec<Vec<u8>> = Vec::new();
    assert(packet_bytes(packets@) =~= frames(Seq::empty()));
    packets
}

fn add_packet(packets: &mut Vec<Vec<u8>>, data: &[u8], replies: Ghost<Seq<Seq<u8>>>)
    requires
        packet_bytes(old(packets)@) == frames(replies@),
    ensures
        packet_bytes(final(packets)@) == frames(replies@.push(data@)),
{
    packets.push(encode_packet(data));
    proof {
        let n = old(packets)@.len() as int;
        let before = packet_bytes(old(packets)@);
        assert(before.len() == n && frames(replies@).len() == replies@.len());
        assert forall|i: int| 0 <= i < n implies #[trigger] packet_bytes(packets@)[i] == frames(
            replies@.push(data@),
        )[i] by {
            assert(packet_bytes(packets@)[i] == before[i]);
            assert(before[i] == frames(replies@)[i]);
            assert(replies@.push(data@)[i] == replies@[i]);
        }
        assert(packet_bytes(packets@) =~= frames(replies@.push(data@)));
    }
}

/// One reply, then the next command.
fn reply(token: &str) -> (step: TcpStep)
    ensures
        step.says(seq![token.spec_bytes()], TcpNext::Command),
{
    let mut packets = no_packets();
    add_packet(&mut packets, token.as_bytes(), Ghost(Seq::empty()));
    assert(Seq::<Seq<u8>>::empty().push(token.spec_bytes()) =~= seq![token.spec_bytes()]);
    TcpStep { packets, next: TcpNext::Command }
}

/// The command in a packet, if there is one.
pub open spec fn command_in(packet: Seq<u8>) -> Option<Command> {
    match command_at(packet) {
        Some((command, _)) => Some(command),
        None => None,
    }
}

/// One fastboot-over-TCP client session.
pub struct TcpFastbootSession {
    /// Serial number of the device.
    pub serial: String,
    /// Settings of the update.
    pub params: SwupdateParams,
    /// The active transfer.
    pub sink: SwupdateSession,
    /// An FBK session is open.
    pub fastboot_usb_session_open: bool,
    /// A download waits to be flashed.
    pub fastboot_pending_flash: bool,
    /// A restart is due after a successful update.
    pub restart_due: bool,
}

impl TcpFastbootSession {
    /// The transfer is in order.
    pub open spec fn wf(self) -> bool {
        self.sink.wf()
    }

    /// Creates the session of a client that has just connected.
    pub fn new(serial: &str, params: SwupdateParams) -> (session: TcpFastbootSession)
        ensures
            session.wf(),
            session.serial@ == serial@,
            session.params == params,
            session.sink.fresh(params, RECV_BUFFER_SIZE),
            !session.fastboot_usb_session_open,
            !session.fastboot_pending_flash,
            !session.restart_due,
    {
        let sink = SwupdateSession::new(params.clone(), RECV_BUFFER_SIZE);
        TcpFastbootSession {
            serial: serial.to_owned(),
            params,
            sink,
            fastboot_usb_session_open: false,
            fastboot_pending_flash: false,
            restart_due: false,
        }
    }

    /// Whether opening the transfer of `before` can give `self`: an open one
    /// stays as it is, and none is opened while a restart is due.
    pub open spec fn begun(self, before: TcpFastbootSession, host: UpdateHost, begun: bool) -> bool {
        &&& self.wf()
        &&& self == (TcpFastbootSession { sink: self.sink, ..before })
        &&& begun == (before.sink.opened() || !host.restart_pending)
        &&& if before.sink.opened() {
            self.sink == before.sink
        } else if begun {
            self.sink.newly_opened(before.sink, host.boot)
        } else {
            &&& self.sink == (SwupdateSession {
                terminal: None,
                sent: self.sink.sent,
                ..before.sink
            })
            &&& self.sink.sent@ == Seq::<Seq<u8>>::empty()
        }
    }

    fn begin(&mut self, host: &UpdateHost) -> (begun: bool)
        requires
            old(self).wf(),
        ensures
            final(self).begun(*old(self), *host, begun),
    {
        self.sink.open(host).is_ok()
    }

    /// Whether carrying out a command can turn `before` into `self`, with these
    /// replies. Data that holds no command is answered like a command that is
    /// not implemented.
    pub open spec fn dispatched(
        self,
        before: TcpFastbootSession,
        host: UpdateHost,
        machine: Machine,
        command: Option<Command>,
        replies: Seq<Seq<u8>>,
        next: TcpNext,
    ) -> bool {
        match command {
            Some(Command::WOpen) => exists|mid: TcpFastbootSession, begun: bool|
                {
                    &&& #[trigger] mid.begun(before, host, begun)
                    &&& next == TcpNext::Command
                    &&& if begun {
                        self == (TcpFastbootSession {
                            fastboot_usb_session_open: true,
                            fastboot_pending_flash: false,
                            ..mid
                        }) && replies == seq![OKAY.spec_bytes()]
                    } else {
                        self == mid && replies == seq![FAIL_OPEN.spec_bytes()]
                    }
                },
            Some(Command::GetVar(name)) => {
                &&& self == before
                &&& next == TcpNext::Command
                &&& match variable(
                    name,
                    before.serial@,
                    host.boot,
                    machine.fused_json(host.boot).len(),
                ) {
                    Some(value) => replies == seq![OKAY.spec_bytes() + value],
                    None => replies == seq![FAIL_CMD.spec_bytes()],
                }
            },
            Some(Command::Fetch(_)) => {
                let payload = machine_json(before.serial@, machine.base, host.boot);
                &&& self == before
                &&& next == TcpNext::Command
                &&& replies == seq![
                    encode_utf8(data_header_text(payload.len())),
                    payload,
                    OKAY.spec_bytes(),
                ]
            },
            Some(Command::FetchUnknownPart) | Some(Command::FlashUnknownPart) => {
                &&& self == before
                &&& next == TcpNext::Command
                &&& replies == seq![FAIL_UNKNOWN_PART.spec_bytes()]
            },
            Some(Command::Download(len, kind)) => exists|mid: TcpFastbootSession, begun: bool|
                {
                    &&& #[trigger] mid.begun(before, host, begun)
                    &&& if begun {
                        let header = encode_utf8(data_header_text(len));
                        &&& self == (TcpFastbootSession {
                            fastboot_pending_flash: kind == DownloadKind::Fastboot
                                || !before.fastboot_usb_session_open,
                            ..mid
                        })
                        &&& if len == 0 {
                            replies == seq![header, OKAY.spec_bytes()] && next == TcpNext::Command
                        } else {
                            replies == seq![header] && next == TcpNext::Download(len as usize)
                        }
                    } else {
                        &&& self == mid
                        &&& replies == seq![FAIL_OPEN.spec_bytes()]
                        &&& next == TcpNext::Command
                    }
                },
            Some(Command::Flash(_)) => if !before.fastboot_pending_flash {
                &&& self == before
                &&& replies == seq![FAIL_FLASH.spec_bytes()]
                &&& next == TcpNext::Command
            } else {
                self.finishing(before, seq![INFO_WAIT_SWUPDATE.spec_bytes()], replies, next)
            },
            Some(Command::Close) => self.finishing(before, Seq::empty(), replies, next),
            Some(Command::Unsupported) | None => {
                &&& self == before
                &&& next == TcpNext::Command
                &&& replies == seq![FAIL_CMD.spec_bytes()]
            },
        }
    }

    /// Whether the end of the data can turn `before` into `self`, with these
    /// replies behind `first`: without an open transfer there is nothing to
    /// finish.
    pub open spec fn finishing(
        self,
        before: TcpFastbootSession,
        first: Seq<Seq<u8>>,
        replies: Seq<Seq<u8>>,
        next: TcpNext,
    ) -> bool {
        if before.sink.opened() {
            &&& self == (TcpFastbootSession {
                sink: SwupdateSession { tx: None, ..before.sink },
                ..before
            })
            &&& replies == first
            &&& next == TcpNext::Verdict
        } else {
            &&& self == (TcpFastbootSession { fastboot_pending_flash: false, ..before })
            &&& replies == first.push(FAIL_CLOSE.spec_bytes())
            &&& next == TcpNext::Command
        }
    }

    fn handle_wopen(&mut self, host: &UpdateHost, machine: &Machine) -> (step: TcpStep)
        requires
            old(self).wf(),
        ensures
            final(self).wf(),
            exists|replies: Seq<Seq<u8>>| #[trigger]
                final(self).dispatched(
                    *old(self),
                    *host,
                    *machine,
                    Some(Command::WOpen),
                    replies,
                    step.next,
                ) && step.says(replies, step.next),
    {
        let begun = self.begin(host);
        assert(self.begun(*old(self), *host, begun));
        if !begun {
            let step = reply(FAIL_OPEN);
            assert(self.dispatched(
                *old(self),
                *host,
                *machine,
                Some(Command::WOpen),
                seq![FAIL_OPEN.spec_bytes()],
                step.next,
            ));
            return step;
        }
        self.fastboot_usb_session_open = true;
        self.fastboot_pending_flash = false;
        let step = reply(OKAY);
        assert(self.dispatched(
            *old(self),
            *host,
            *machine,
            Some(Command::WOpen),
            seq![OKAY.spec_bytes()],
            step.next,
        ));
        step
    }

    fn handle_getvar(&self, name: &str, host: &UpdateHost, machine: &Machine) -> (step: TcpStep)
        ensures
            exists|replies: Seq<Seq<u8>>| #[trigger]
                self.dispatched(
                    *self,
                    *host,
                    *machine,
                    Some(Command::GetVar(name@)),
                    replies,
                    step.next,
                ) && step.says(replies, step.next),
    {
        let json_len: usize = machine.fused_json_len(&host.boot);
        match fastboot_getvar_reply(name, self.serial.as_str(), &host.boot, json_len) {
            Some(value) => {
                let mut packets = no_packets();
                add_packet(&mut packets, value.as_slice(), Ghost(Seq::empty()));
                let ghost replies = Seq::<Seq<u8>>::empty().push(value@);
                assert(replies =~= seq![value@]);
                let step = TcpStep { packets, next: TcpNext::Command };
                assert(self.dispatched(
                    *self,
                    *host,
                    *machine,
                    Some(Command::GetVar(name@)),
                    replies,
                    step.next,
                ));
                step
            },
            None => {
                let step = reply(FAIL_CMD);
                assert(self.dispatched(
                    *self,
                    *host,
                    *machine,
                    Some(Command::GetVar(name@)),
                    seq![FAIL_CMD.spec_bytes()],
                    step.next,
                ));
                step
            },
        }
    }

    fn handle_fetch(&self, host: &UpdateHost, machine: &Machine) -> (step: TcpStep)
        ensures
            ({
                let payload = machine_json(self.serial@, machine.base, host.boot);
                step.says(
                    seq![
                        encode_utf8(data_header_text(payload.len())),
                        payload,
                        OKAY.spec_bytes(),
                    ],
                    TcpNext::Command,
                )
            }),
    {
        let info = SystemInfo::collect(Some(self.serial.clone()), &machine.base, &host.boot);
        let payload = info.to_json_bytes();
        let header = data_header(payload.len());
        let ghost first = Seq::<Seq<u8>>::empty().push(encode_utf8(header@));
        let mut packets = no_packets();
        add_packet(&mut packets, header.as_str().as_bytes(), Ghost(Seq::empty()));
        add_packet(&mut packets, payload.as_slice(), Ghost(first));
        add_packet(&mut packets, OKAY.as_bytes(), Ghost(first.push(payload@)));
        assert(first.push(payload@).push(OKAY.spec_bytes()) =~= seq![
            encode_utf8(header@),
            payload@,
            OKAY.spec_bytes(),
        ]);
        TcpStep { packets, next: TcpNext::Command }
    }

    fn handle_download(
        &mut self,
        len: usize,
        kind: DownloadKind,
        host: &UpdateHost,
        machine: &Machine,
    ) -> (step: TcpStep)
        requires
            old(self).wf(),
        ensures
            final(self).wf(),
            exists|replies: Seq<Seq<u8>>| #[trigger]
                final(self).dispatched(
                    *old(self),
                    *host,
                    *machine,
                    Some(Command::Download(len as nat, kind)),
                    replies,
                    step.next,
                ) && step.says(replies, step.next),
    {
        let begun = self.begin(host);
        assert(self.begun(*old(self), *host, begun));
        if !begun {
            let step = reply(FAIL_OPEN);
            assert(self.dispatched(
                *old(self),
                *host,
                *machine,
                Some(Command::Download(len as nat, kind)),
                seq![FAIL_OPEN.spec_bytes()],
                step.next,
            ));
            return step;
        }
        self.fastboot_pending_flash = match kind {
            DownloadKind::Fastboot => true,
            DownloadKind::Plain => !self.fastboot_usb_session_open,
        };
        let header = data_header(len);
        let ghost first = Seq::<Seq<u8>>::empty().push(encode_utf8(header@));
        let mut packets = no_packets();
        add_packet(&mut packets, header.as_str().as_bytes(), Ghost(Seq::empty()));
        assert(first =~= seq![encode_utf8(header@)]);
        if len == 0 {
            add_packet(&mut packets, OKAY.as_bytes(), Ghost(first));
            let ghost both = first.push(OKAY.spec_bytes());
            assert(both =~= seq![encode_utf8(header@), OKAY.spec_bytes()]);
            let step = TcpStep { packets, next: TcpNext::Command };
            assert(self.dispatched(
                *old(self),
                *host,
                *machine,
                Some(Command::Download(len as nat, kind)),
                both,
                step.next,
            ));
            return step;
        }
        let step = TcpStep { packets, next: TcpNext::Download(len) };
        assert(self.dispatched(
            *old(self),
            *host,
            *machine,
            Some(Command::Download(len as nat, kind)),
            first,
            step.next,
        ));
        step
    }

    /// Signals the end of the data, unless there is nothing to finish.
    fn finish_download(&mut self, packets: Vec<Vec<u8>>, first: Ghost<Seq<Seq<u8>>>) -> (step:
        TcpStep)
        requires
            old(self).wf(),
            packet_bytes(packets@) == frames(first@),
        ensures
            final(self).wf(),
            exists|replies: Seq<Seq<u8>>| #[trigger]
                final(self).finishing(*old(self), first@, replies, step.next) && step.says(
                    replies,
                    step.next,
                ),
    {
        let mut packets = packets;
        if !self.sink.is_open() {
            self.fastboot_pending_flash = false;
            add_packet(&mut packets, FAIL_CLOSE.as_bytes(), first);
            let step = TcpStep { packets, next: TcpNext::Command };
            assert(self.finishing(
                *old(self),
                first@,
                first@.push(FAIL_CLOSE.spec_bytes()),
                step.next,
            ));
            return step;
        }
        self.sink.eof();
        let step = TcpStep { packets, next: TcpNext::Verdict };
        assert(self.finishing(*old(self), first@, first@, step.next));
        step
    }

    fn handle_flash(&mut self) -> (step: TcpStep)
        requires
            old(self).wf(),
        ensures
            final(self).wf(),
            if !old(self).fastboot_pending_flash {
                *final(self) == *old(self) && step.says(
                    seq![FAIL_FLASH.spec_bytes()],
                    TcpNext::Command,
                )
            } else {
                exists|replies: Seq<Seq<u8>>| #[trigger]
                    final(self).finishing(
                        *old(self),
                        seq![INFO_WAIT_SWUPDATE.spec_bytes()],
                        replies,
                        step.next,
                    ) && step.says(replies, step.next)
            },
    {
        if !self.fastboot_pending_flash {
            return reply(FAIL_FLASH);
        }
        let mut packets = no_packets();
        add_packet(&mut packets, INFO_WAIT_SWUPDATE.as_bytes(), Ghost(Seq::empty()));
        let ghost first = Seq::<Seq<u8>>::empty().push(INFO_WAIT_SWUPDATE.spec_bytes());
        assert(first =~= seq![INFO_WAIT_SWUPDATE.spec_bytes()]);
        self.finish_download(packets, Ghost(first))
    }

    /// Carries out the command in one packet.
    pub fn dispatch(&mut self, packet: &[u8], host: &UpdateHost, machine: &Machine) -> (step:
        TcpStep)
        requires
            old(self).wf(),
        ensures
            final(self).wf(),
            exists|replies: Seq<Seq<u8>>| #[trigger]
                final(self).dispatched(
                    *old(self),
                    *host,
                    *machine,
                    command_in(packet@),
                    replies,
                    step.next,
                ) && step.says(replies, step.next),
    {
        let ghost before = *self;
        let command = match parse_command(packet) {
            Some((command, _consumed)) => command,
            None => {
                let step = reply(FAIL_CMD);
                assert(self.dispatched(
                    before,
                    *host,
                    *machine,
                    None,
                    seq![FAIL_CMD.spec_bytes()],
                    step.next,
                ));
                return step;
            },
        };
        let ghost asked = Some(command@);
        match command {
            ParsedCommand::WOpen => self.handle_wopen(host, machine),
            ParsedCommand::GetVar(name) => self.handle_getvar(name.as_str(), host, machine),
            ParsedCommand::Fetch(_) => {
                let step = self.handle_fetch(host, machine);
                proof {
                    let payload = machine_json(before.serial@, machine.base, host.boot);
                    let replies = seq![
                        encode_utf8(data_header_text(payload.len())),
                        payload,
                        OKAY.spec_bytes(),
                    ];
                    assert(self.dispatched(before, *host, *machine, asked, replies, step.next));
                }
                step
            },
            ParsedCommand::FetchUnknownPart | ParsedCommand::FlashUnknownPart => {
                let step = reply(FAIL_UNKNOWN_PART);
                let ghost replies = seq![FAIL_UNKNOWN_PART.spec_bytes()];
                assert(self.dispatched(before, *host, *machine, asked, replies, step.next));
                step
            },
            ParsedCommand::Download { len, kind } => self.handle_download(len, kind, host, machine),
            ParsedCommand::Flash(_) => {
                let step = self.handle_flash();
                proof {
                    let replies = if !before.fastboot_pending_flash {
                        seq![FAIL_FLASH.spec_bytes()]
                    } else {
                        choose|replies: Seq<Seq<u8>>| #[trigger]
                            self.finishing(
                                before,
                                seq![INFO_WAIT_SWUPDATE.spec_bytes()],
                                replies,
                                step.next,
                            ) && step.says(replies, step.next)
                    };
                    assert(self.dispatched(before, *host, *machine, asked, replies, step.next));
                }
                step
            },
            ParsedCommand::Close => {
                let packets = no_packets();
                let step = self.finish_download(packets, Ghost(Seq::empty()));
                proof {
                    let replies = choose|replies: Seq<Seq<u8>>| #[trigger]
                        self.finishing(before, Seq::empty(), replies, step.next) && step.says(
                            replies,
                            step.next,
                        );
                    assert(self.dispatched(before, *host, *machine, asked, replies, step.next));
                }
                step
            },
            ParsedCommand::Unsupported => {
                let step = reply(FAIL_CMD);
                let ghost replies = seq![FAIL_CMD.spec_bytes()];
                assert(self.dispatched(before, *host, *machine, asked, replies, step.next));
                step
            },
        }
    }

    /// Whether `self` is `before` with a fresh transfer and nothing pending.
    pub open spec fn started_over(self, before: TcpFastbootSession) -> bool {
        &&& self.wf()
        &&& self == (TcpFastbootSession {
            sink: self.sink,
            fastboot_usb_session_open: false,
            fastboot_pending_flash: false,
            restart_due: before.restart_due || before.sink.restart_due,
            ..before
        })
        &&& self.sink.fresh(before.params, RECV_BUFFER_SIZE)
    }

    fn reset_after_finish(&mut self)
        ensures
            final(self).started_over(*old(self)),
    {
        self.restart_due = self.restart_due || self.sink.restart_due;
        self.sink = SwupdateSession::new(self.params.clone(), RECV_BUFFER_SIZE);
        self.fastboot_usb_session_open = false;
        self.fastboot_pending_flash = false;
    }

    /// SWUpdate's verdict is there: the host is told, and everything starts
    /// over.
    pub fn finished(&mut self, verdict: &Result<(), IoError>) -> (step: TcpStep)
        ensures
            final(self).started_over(*old(self)),
            step.says(
                seq![
                    (match verdict {
                        Ok(_) => OKAY,
                        Err(_) => FAIL_CLOSE,
                    }).spec_bytes(),
                ],
                TcpNext::Command,
            ),
    {
        self.reset_after_finish();
        match verdict {
            Ok(()) => reply(OKAY),
            Err(_err) => reply(FAIL_CLOSE),
        }
    }

    /// The command loop has ended; after a fault the transfer is torn down. The
    /// status task, if one runs, is asked to stop and handed to the caller, who
    /// waits for it.
    pub fn ended(&mut self, result: &Result<(), IoError>) -> (task: Option<
        JoinHandle<Result<(), IoError>>,
    >)
        requires
            old(self).wf(),
        ensures
            final(self).wf(),
            result is Ok ==> task is None && *final(self) == *old(self),
            result is Err ==> *final(self) == (TcpFastbootSession {
                sink: final(self).sink,
                ..*old(self)
            }) && final(self).sink.torn_down(old(self).sink, task),
    {
        if result.is_err() {
            self.sink.abort()
        } else {
            None
        }
    }
}

/// The result of a session whose command loop and whose closing ended like
/// this: a fault of the loop is the first thing to report.
pub fn session_result(result: Result<(), IoError>, closing: Result<(), IoError>) -> (outcome: Result<
    (),
    IoError,
>)
    ensures
        outcome == (match result {
            Ok(_) => closing,
            Err(e) => Err(e),
        }),
{
    match result {
        Ok(()) => closing,
        Err(err) => Err(err),
    }
}

// ---------------------------------------------------------------------------
// The data phase
// ---------------------------------------------------------------------------

/// What a download reads next.
#[derive(Debug, Clone, Copy, PartialEq, Eq, Structural)]
pub enum ReadPlan {
    /// Nothing; all of it is there.
    Nothing,
    /// The length prefix of the next packet.
    Header,
    /// Up to that many bytes of the current packet.
    Payload(usize),
}

/// The data phase of a download: how many bytes are to come, of the download
/// and of the current packet.
#[derive(Debug)]
pub struct FastbootDownloadSource {
    /// Bytes of the download that are still to come.
    pub remaining: usize,
    /// Bytes of the current packet that are still to come.
    pub frame_remaining: u64,
    /// The length prefix of a packet has been read and none of its bytes yet.
    pub frame_started: bool,
    /// Blocks still go to SWUpdate; otherwise they are dropped.
    pub forwarding: bool,
}

/// The fault of a connection that was closed within a download.
pub open spec fn closed_mid_download(err: IoError) -> bool {
    err.says(ErrorKind::UnexpectedEof, "connection closed mid-download"@)
}

fn mid_download_error() -> (err: IoError)
    ensures
        closed_mid_download(err),
{
    IoError::new(ErrorKind::UnexpectedEof, "connection closed mid-download")
}

/// The smaller one of two numbers.
pub open spec fn smaller(a: int, b: int) -> int {
    if a < b {
        a
    } else {
        b
    }
}

impl FastbootDownloadSource {
    /// How many bytes the next read of the current packet asks for.
    pub open spec fn wanted(self) -> int {
        smaller(
            smaller(self.frame_remaining as int, self.remaining as int),
            RECV_BUFFER_SIZE as int,
        )
    }

    /// The data phase of a download of `total` bytes.
    pub fn new(total: usize) -> (source: FastbootDownloadSource)
        ensures
            source.remaining == total,
            source.frame_remaining == 0,
            !source.frame_started,
            source.forwarding,
    {
        FastbootDownloadSource {
            remaining: total,
            frame_remaining: 0,
            frame_started: false,
            forwarding: true,
        }
    }

    /// What to read next.
    pub fn next_read(&self) -> (plan: ReadPlan)
        ensures
            plan == (if self.remaining == 0 {
                ReadPlan::Nothing
            } else if self.frame_remaining == 0 && !self.frame_started {
                ReadPlan::Header
            } else {
                ReadPlan::Payload(self.wanted() as usize)
            }),
    {
        if self.remaining == 0 {
            return ReadPlan::Nothing;
        }
        if self.frame_remaining == 0 && !self.frame_started {
            return ReadPlan::Header;
        }
        let limit: usize = if self.remaining < RECV_BUFFER_SIZE {
            self.remaining
        } else {
            RECV_BUFFER_SIZE
        };
        let want: usize = if self.frame_remaining < limit as u64 {
            self.frame_remaining as usize
        } else {
            limit
        };
        ReadPlan::Payload(want)
    }

    /// The length prefix of the next packet was read, or the connection is
    /// closed.
    pub fn header_read(&mut self, header: Option<u64>) -> (result: Result<(), IoError>)
        ensures
            match header {
                Some(len) => result is Ok && *final(self) == (FastbootDownloadSource {
                    frame_remaining: len,
                    frame_started: true,
                    ..*old(self)
                }),
                None => (result matches Err(e) && closed_mid_download(e)) && *final(self) == *old(
                    self,
                ),
            },
    {
        match header {
            Some(len) => {
                self.frame_remaining = len;
                self.frame_started = true;
                Ok(())
            },
            None => Err(mid_download_error()),
        }
    }

    /// Part of the current packet was read. A read that gives nothing means
    /// that the connection is closed, or that the packet is empty; either ends
    /// the download.
    pub fn payload_read(&mut self, read: usize) -> (result: Result<(), IoError>)
        requires
            read <= old(self).wanted(),
        ensures
            if read == 0 {
                (result matches Err(e) && closed_mid_download(e)) && *final(self) == *old(self)
            } else {
                result is Ok && *final(self) == (FastbootDownloadSource {
                    remaining: (old(self).remaining - read) as usize,
                    frame_remaining: (old(self).frame_remaining - read) as u64,
                    frame_started: false,
                    ..*old(self)
                })
            },
    {
        if read == 0 {
            return Err(mid_download_error());
        }
        self.frame_remaining = self.frame_remaining - read as u64;
        self.remaining = self.remaining - read;
        self.frame_started = false;
        Ok(())
    }
}

/// What became of a block of the download.
pub enum StreamStep {
    /// It is dealt with; go on.
    Next,
    /// There is no room for it; go on with [`TcpFastbootSession::resume`] once
    /// there is.
    Blocked(BytesMut),
    /// All of the download is there; send this and go on with the next command.
    Complete(TcpStep),
    /// The update has failed: send this, whether or not that succeeds, wait for
    /// the status task that was asked to stop, and end the session.
    Failed {
        /// What to send.
        step: TcpStep,
        /// The status task, if one runs.
        stopped: Option<JoinHandle<Result<(), IoError>>>,
        /// The fault.
        err: IoError,
    },
    /// The update could not be opened; end the session.
    Fault(IoError),
}

impl TcpFastbootSession {
    /// Whether what the pump said can turn `before` and the source into `self`
    /// and `after`. SWUpdate may come to a good verdict before all data is
    /// there: the host sends all of it, and the rest is dropped. A bad verdict
    /// ends the session.
    pub open spec fn streamed(
        self,
        after: FastbootDownloadSource,
        mid: TcpFastbootSession,
        source: FastbootDownloadSource,
        inner: PumpStep,
        step: StreamStep,
    ) -> bool {
        match inner {
            PumpStep::Next => step == StreamStep::Next && self == mid && after == source,
            PumpStep::Blocked(block) => step == StreamStep::Blocked(block) && self == mid && after
                == source,
            PumpStep::End(PumpToSwupdateEnd::InputClosed) => {
                &&& step matches StreamStep::Complete(s) && s.says(
                    seq![OKAY.spec_bytes()],
                    TcpNext::Command,
                )
                &&& self == mid
                &&& after == source
            },
            PumpStep::End(PumpToSwupdateEnd::SwupdateFinished(Ok(_))) => {
                &&& step == StreamStep::Next
                &&& self == mid
                &&& after == (FastbootDownloadSource { forwarding: false, ..source })
            },
            PumpStep::End(PumpToSwupdateEnd::SwupdateFinished(Err(e))) => {
                &&& step matches StreamStep::Failed { step: s, stopped, err } && s.says(
                    seq![FAIL_EPIPE.spec_bytes()],
                    TcpNext::Command,
                ) && err == e && self.sink.torn_down(mid.sink, stopped)
                &&& self == (TcpFastbootSession { sink: self.sink, ..mid })
                &&& after == source
            },
            PumpStep::Failed(e) => step == StreamStep::Fault(e) && self == mid && after == source,
        }
    }

    /// Whether taking in a block while data is passed on can turn `before` and
    /// the source into `self` and `after`.
    pub open spec fn passed_on(
        self,
        after: FastbootDownloadSource,
        before: TcpFastbootSession,
        source: FastbootDownloadSource,
        host: UpdateHost,
        data: Seq<u8>,
        step: StreamStep,
    ) -> bool {
        exists|sink: SwupdateSession, inner: PumpStep|
            {
                let mid = TcpFastbootSession { sink, ..before };
                &&& #[trigger] pumped(sink, before.sink, host, data, inner)
                &&& sink.wf()
                &&& self.streamed(after, mid, source, inner, step)
            }
    }

    /// Whether offering a block again can turn `before` and the source into
    /// `self` and `after`.
    pub open spec fn resumed(
        self,
        after: FastbootDownloadSource,
        before: TcpFastbootSession,
        source: FastbootDownloadSource,
        host: UpdateHost,
        data: Seq<u8>,
        step: StreamStep,
    ) -> bool {
        exists|sink: SwupdateSession, inner: PumpStep|
            {
                let mid = TcpFastbootSession { sink, ..before };
                &&& #[trigger] offered(sink, before.sink, host, data, inner)
                &&& sink.wf()
                &&& self.streamed(after, mid, source, inner, step)
            }
    }

    fn stream_step(&mut self, source: &mut FastbootDownloadSource, inner: PumpStep) -> (step:
        StreamStep)
        requires
            old(self).wf(),
        ensures
            final(self).wf(),
            final(self).streamed(*final(source), *old(self), *old(source), inner, step),
    {
        match inner {
            PumpStep::Next => StreamStep::Next,
            PumpStep::Blocked(block) => StreamStep::Blocked(block),
            PumpStep::End(end) => match end {
                PumpToSwupdateEnd::InputClosed => StreamStep::Complete(reply(OKAY)),
                PumpToSwupdateEnd::SwupdateFinished(verdict) => match verdict {
                    Ok(()) => {
                        source.forwarding = false;
                        StreamStep::Next
                    },
                    Err(err) => {
                        let stopped = self.sink.abort();
                        StreamStep::Failed { step: reply(FAIL_EPIPE), stopped, err }
                    },
                },
            },
            PumpStep::Failed(err) => StreamStep::Fault(err),
        }
    }

    /// Takes in the next block of a download, or its end: blocks go to SWUpdate
    /// until it has come to its verdict, and the end is acknowledged.
    pub fn stream_download(
        &mut self,
        source: &mut FastbootDownloadSource,
        block: Option<BytesMut>,
        host: &UpdateHost,
    ) -> (step: StreamStep)
        requires
            old(self).wf(),
        ensures
            final(self).wf(),
            match block {
                Some(b) => if !old(source).forwarding {
                    step == StreamStep::Next && *final(self) == *old(self) && *final(source)
                        == *old(source)
                } else {
                    final(self).passed_on(
                        *final(source),
                        *old(self),
                        *old(source),
                        *host,
                        contents(b),
                        step,
                    )
                },
                None => final(self).streamed(
                    *final(source),
                    *old(self),
                    *old(source),
                    PumpStep::End(PumpToSwupdateEnd::InputClosed),
                    step,
                ),
            },
    {
        if !source.forwarding && block.is_some() {
            return StreamStep::Next;
        }
        let ghost offered = block;
        let inner = pump_to_swupdate(&mut self.sink, block, host);
        proof {
            if let Some(b) = offered {
                assert(pumped(self.sink, old(self).sink, *host, contents(b), inner));
            }
        }
        self.stream_step(source, inner)
    }

    /// Offers a block again for which there was no room.
    pub fn resume(
        &mut self,
        source: &mut FastbootDownloadSource,
        block: BytesMut,
        host: &UpdateHost,
    ) -> (step: StreamStep)
        requires
            old(self).wf(),
        ensures
            final(self).wf(),
            final(self).resumed(
                *final(source),
                *old(self),
                *old(source),
                *host,
                contents(block),
                step,
            ),
    {
        let ghost data = contents(block);
        let inner = offer_block(&mut self.sink, block, host);
        assert(offered(self.sink, old(self).sink, *host, data, inner));
        self.stream_step(source, inner)
    }
}

// ---------------------------------------------------------------------------
// Laws
// ---------------------------------------------------------------------------

/// The bytes that a list of actions sends to a USB host, reply by reply.
pub open spec fn usb_replies(actions: Seq<Act>) -> Seq<Seq<u8>>
    decreases actions.len(),
{
    if actions.len() == 0 {
        Seq::empty()
    } else {
        usb_replies(actions.drop_last()) + (match actions.last() {
            Act::Reply(data) => seq![data],
            Act::Series(parts) => parts,
            _ => Seq::empty(),
        })
    }
}

/// A USB host and a TCP host have come equally far.
pub open spec fn alike(usb: FastbootUsbState, tcp: TcpFastbootSession) -> bool {
    &&& usb.serial@ == tcp.serial@
    &&& usb.download == Some(tcp.sink)
    &&& usb.fastboot_usb_session_open == tcp.fastboot_usb_session_open
    &&& usb.fastboot_pending_flash == tcp.fastboot_pending_flash
}

/// The replies that announcing a data phase over USB adds.
pub open spec fn announcement(step: CommandStep) -> Seq<Seq<u8>> {
    match step {
        CommandStep::Done(_) => Seq::empty(),
        CommandStep::SendHeader { len, kind: _ } => if len == 0 {
            seq![encode_utf8(data_header_text(len as nat)), OKAY.spec_bytes()]
        } else {
            seq![encode_utf8(data_header_text(len as nat))]
        },
    }
}

proof fn lemma_usb_replies()
    ensures
        usb_replies(Seq::empty()) == Seq::<Seq<u8>>::empty(),
        forall|a: Act| #[trigger]
            usb_replies(seq![a]) == (match a {
                Act::Reply(data) => seq![data],
                Act::Series(parts) => parts,
                _ => Seq::empty(),
            }),
        forall|a: &str, b: &str| #[trigger]
            usb_replies(only(a) + only(b)) == seq![a.spec_bytes(), b.spec_bytes()],
{
    reveal_with_fuel(usb_replies, 3);
    assert forall|a: Act| #[trigger]
        usb_replies(seq![a]) == (match a {
            Act::Reply(data) => seq![data],
            Act::Series(parts) => parts,
            _ => Seq::empty(),
        }) by {
        assert(seq![a].drop_last() =~= Seq::empty());
        assert(usb_replies(seq![a]) =~= (match a {
            Act::Reply(data) => seq![data],
            Act::Series(parts) => parts,
            _ => Seq::empty(),
        }));
    }
    assert forall|a: &str, b: &str| #[trigger]
        usb_replies(only(a) + only(b)) == seq![a.spec_bytes(), b.spec_bytes()] by {
        let both = only(a) + only(b);
        assert(both.drop_last() =~= only(a));
        assert(only(a).drop_last() =~= Seq::empty());
        assert(usb_replies(both) =~= seq![a.spec_bytes(), b.spec_bytes()]);
    }
}

/// Over TCP a host gets the same replies to a command as over USB.
pub proof fn law_same_replies_as_usb(
    usb: FastbootUsbState,
    usb_before: FastbootUsbState,
    tcp: TcpFastbootSession,
    tcp_before: TcpFastbootSession,
    host: UpdateHost,
    machine: Machine,
    command: Command,
    usb_step: CommandStep,
    actions: Seq<Act>,
    replies: Seq<Seq<u8>>,
    next: TcpNext,
)
    requires
        alike(usb_before, tcp_before),
        !usb_before.active(),
        usb.commanded(usb_before, host, machine, command, usb_step, actions),
        tcp.dispatched(tcp_before, host, machine, Some(command), replies, next),
        command matches Command::Download(len, _) ==> len <= usize::MAX,
    ensures
        replies == usb_replies(actions) + announcement(usb_step),
{
    lemma_usb_replies();
    let both = usb_replies(actions) + announcement(usb_step);
    let nothing = Seq::<Act>::empty();
    match command {
        Command::WOpen => {
            let (mid, begun, first) = choose|mid: FastbootUsbState, begun: bool, first: Seq<Act>|
                {
                    &&& #[trigger] mid.begun(usb_before, host, begun, first)
                    &&& usb_step == CommandStep::Done(begun)
                    &&& usb == mid.after_wopen(begun)
                    &&& actions == first + (if begun {
                        only(OKAY)
                    } else {
                        Seq::<Act>::empty()
                    })
                };
            if begun {
                assert(actions =~= only(OKAY));
            } else {
                assert(actions =~= only(FAIL_OPEN));
            }
            assert(replies =~= both);
        },
        Command::Download(len, kind) => {
            let begun = choose|begun: bool| #[trigger]
                usb.begun(usb_before, host, begun, actions);
            if begun {
                assert(actions =~= nothing);
            }
            assert(replies =~= both);
        },
        Command::Flash(_) => {
            if usb_before.fastboot_pending_flash && !usb_before.transfer_open() {
                assert(replies =~= both);
            } else {
                assert(replies =~= both);
            }
        },
        _ => {
            assert(replies =~= both);
        },
    }
}

/// Whether a read of the data phase can turn `before` into `after`: of a length
/// prefix, which gives no data, or of `read` bytes of a packet.
pub open spec fn source_step(
    before: FastbootDownloadSource,
    after: FastbootDownloadSource,
    read: nat,
) -> bool {
    if read == 0 {
        after == (FastbootDownloadSource {
            frame_remaining: after.frame_remaining,
            frame_started: true,
            ..before
        })
    } else {
        read <= before.wanted() && after == (FastbootDownloadSource {
            remaining: (before.remaining - read) as usize,
            frame_remaining: (before.frame_remaining - read) as u64,
            frame_started: false,
            ..before
        })
    }
}

/// The sum of some numbers.
pub open spec fn total(reads: Seq<nat>) -> nat
    decreases reads.len(),
{
    if reads.len() == 0 {
        0
    } else {
        total(reads.drop_last()) + reads.last()
    }
}

/// However a download is cut into packets and reads, every byte of it counts
/// once: what has been read and what is still to come add up to the size that
/// was announced.
pub proof fn law_every_byte_counts_once(sources: Seq<FastbootDownloadSource>, reads: Seq<nat>)
    requires
        sources.len() == reads.len() + 1,
        forall|i: int|
            0 <= i < reads.len() ==> source_step(
                #[trigger] sources[i],
                sources[i + 1],
                reads[i],
            ),
    ensures
        sources.last().remaining + total(reads) == sources[0].remaining,
    decreases reads.len(),
{
    if reads.len() > 0 {
        let n = reads.len() - 1;
        let earlier = sources.drop_last();
        assert forall|i: int| 0 <= i < n implies source_step(
            #[trigger] earlier[i],
            earlier[i + 1],
            reads.drop_last()[i],
        ) by {
            assert(earlier[i] == sources[i]);
            assert(earlier[i + 1] == sources[i + 1]);
        }
        law_every_byte_counts_once(earlier, reads.drop_last());
        assert(source_step(sources[n], sources[n + 1], reads[n]));
    }
}

/// A block of a download that was dealt with while data is passed on is fed to
/// SWUpdate as it is, behind what was fed before and into the same queue; one
/// that it had no room for is handed back whole.
pub proof fn law_streamed_in_order(
    after: TcpFastbootSession,
    after_source: FastbootDownloadSource,
    before: TcpFastbootSession,
    source: FastbootDownloadSource,
    host: UpdateHost,
    data: Seq<u8>,
    step: StreamStep,
)
    requires
        before.wf(),
        source.forwarding,
        after.passed_on(after_source, before, source, host, data, step) || after.resumed(
            after_source,
            before,
            source,
            host,
            data,
            step,
        ),
    ensures
        step == StreamStep::Next && after_source.forwarding ==> after.sink.fed()
            == before.sink.fed() + data,
        step matches StreamStep::Blocked(back) ==> contents(back) == data && after.sink.fed()
            == before.sink.fed() && after_source == source,
        (step == StreamStep::Next && after_source.forwarding) || step is Blocked
            ==> after.sink.tx is Some && after.sink.continues(before.sink),
        after_source.remaining == source.remaining,
{
    if after.passed_on(after_source, before, source, host, data, step) {
        let (sink, inner) = choose|sink: SwupdateSession, inner: PumpStep|
            {
                let mid = TcpFastbootSession { sink, ..before };
                &&& #[trigger] pumped(sink, before.sink, host, data, inner)
                &&& sink.wf()
                &&& after.streamed(after_source, mid, source, inner, step)
            };
        law_pumped_in_order(sink, before.sink, host, data, inner);
    } else {
        let (sink, inner) = choose|sink: SwupdateSession, inner: PumpStep|
            {
                let mid = TcpFastbootSession { sink, ..before };
                &&& #[trigger] offered(sink, before.sink, host, data, inner)
                &&& sink.wf()
                &&& after.streamed(after_source, mid, source, inner, step)
            };
        law_offered_in_order(sink, before.sink, host, data, inner);
    }
}

// ---------------------------------------------------------------------------
// Replies and reads
// ---------------------------------------------------------------------------

/// Whether a step sends one packet, with this data behind its length.
pub open spec fn sends(step: TcpStep, data: Seq<u8>) -> bool {
    &&& step.packets@.len() == 1
    &&& step.packets@[0]@ == crate::wire::be64(data.len() as u64) + data
}

proof fn lemma_one_packet(step: TcpStep, data: Seq<u8>, next: TcpNext)
    requires
        step.says(seq![data], next),
    ensures
        sends(step, data),
{
    assert(packet_bytes(step.packets@).len() == step.packets@.len());
    assert(frames(seq![data]).len() == 1);
    assert(packet_bytes(step.packets@)[0] == step.packets@[0]@);
    assert(frames(seq![data])[0] == frame(data));
}

proof fn lemma_two_packets(step: TcpStep, a: Seq<u8>, b: Seq<u8>, next: TcpNext)
    requires
        step.says(seq![a, b], next),
    ensures
        step.packets@.len() == 2,
        step.packets@[0]@ == crate::wire::be64(a.len() as u64) + a,
        step.packets@[1]@ == crate::wire::be64(b.len() as u64) + b,
{
    assert(packet_bytes(step.packets@).len() == step.packets@.len());
    assert(frames(seq![a, b]).len() == 2);
    assert(packet_bytes(step.packets@)[0] == step.packets@[0]@);
    assert(packet_bytes(step.packets@)[1] == step.packets@[1]@);
    assert(frames(seq![a, b])[0] == frame(a));
    assert(frames(seq![a, b])[1] == frame(b));
}

/// Opening a session is answered `OKAY` where a transfer is open or can be opened,
/// and `FAILopen failed` while a restart is due.
pub proof fn law_wopen_reply(
    session: &mut TcpFastbootSession,
    packet: &[u8],
    used: usize,
    host: UpdateHost,
    machine: Machine,
    step: TcpStep,
)
    requires
        old(session).wf(),
        call_ensures(parse_command, (packet,), Some((ParsedCommand::WOpen, used))),
        call_ensures(TcpFastbootSession::dispatch, (session, packet, &host, &machine), step),
    ensures
        step.next == TcpNext::Command,
        ({
            let open = old(session).sink.tx is Some || old(session).sink.status is Some;
            &&& open || !host.restart_pending ==> sends(step, "OKAY".spec_bytes())
                && final(session).fastboot_usb_session_open
                    && !final(session).fastboot_pending_flash
                && final(session).sink.opened()
            &&& !open && host.restart_pending ==> sends(step, "FAILopen failed".spec_bytes())
                && final(session).fastboot_usb_session_open == old(session).fastboot_usb_session_open
            &&& open ==> final(session).sink == old(session).sink
        }),
        *final(session) == (TcpFastbootSession {
            sink: final(session).sink,
            fastboot_usb_session_open: final(session).fastboot_usb_session_open,
            fastboot_pending_flash: final(session).fastboot_pending_flash,
            ..*old(session)
        }),
{
    let replies = choose|replies: Seq<Seq<u8>>| #[trigger]
        final(session).dispatched(
            *old(session),
            host,
            machine,
            command_in(packet@),
            replies,
            step.next,
        ) && step.says(replies, step.next);
    lemma_one_packet(step, replies[0], step.next);
}

/// A download is answered with its header, and where it has no bytes with `OKAY` as
/// well; its data comes next otherwise. Only a plain one within an FBK session is
/// not meant to be flashed. While a restart is due the answer is `FAILopen failed`.
pub proof fn law_download_reply(
    session: &mut TcpFastbootSession,
    packet: &[u8],
    used: usize,
    len: usize,
    kind: DownloadKind,
    header: String,
    host: UpdateHost,
    machine: Machine,
    step: TcpStep,
)
    requires
        old(session).wf(),
        call_ensures(parse_command, (packet,), Some((ParsedCommand::Download { len, kind }, used))),
        call_ensures(data_header, (len,), header),
        call_ensures(TcpFastbootSession::dispatch, (session, packet, &host, &machine), step),
    ensures
        ({
            let open = old(session).sink.tx is Some || old(session).sink.status is Some;
            let header = encode_utf8(header@);
            &&& (open || !host.restart_pending) && len > 0 ==> sends(step, header) && step.next
                == TcpNext::Download(len)
            &&& (open || !host.restart_pending) && len == 0 ==> step.next == TcpNext::Command
                && step.packets@.len() == 2 && step.packets@[0]@ == crate::wire::be64(
                header.len() as u64,
            ) + header && step.packets@[1]@ == crate::wire::be64(4) + "OKAY".spec_bytes()
            &&& open || !host.restart_pending ==> (final(session).fastboot_pending_flash <==> kind
                is Fastboot || !old(session).fastboot_usb_session_open)
            &&& !open && host.restart_pending ==> sends(step, "FAILopen failed".spec_bytes())
                && step.next == TcpNext::Command
                    && final(session).fastboot_pending_flash == old(session).fastboot_pending_flash
            &&& open ==> final(session).sink == old(session).sink
            &&& open || !host.restart_pending ==> final(session).sink.opened()
        }),
        *final(session) == (TcpFastbootSession {
            sink: final(session).sink,
            fastboot_pending_flash: final(session).fastboot_pending_flash,
            ..*old(session)
        }),
{
    let replies = choose|replies: Seq<Seq<u8>>| #[trigger]
        final(session).dispatched(
            *old(session),
            host,
            machine,
            command_in(packet@),
            replies,
            step.next,
        ) && step.says(replies, step.next);
    reveal_strlit("OKAY");
    vstd::utf8::is_ascii_chars_encode_utf8("OKAY"@);
    assert("OKAY".spec_bytes().len() == 4);
    if replies.len() == 1 {
        assert(replies =~= seq![replies[0]]);
        lemma_one_packet(step, replies[0], step.next);
    } else {
        assert(replies =~= seq![replies[0], replies[1]]);
        lemma_two_packets(step, replies[0], replies[1], step.next);
    }
}

/// An unknown partition and an unknown command are answered as such and change
/// nothing; so is a packet without a command.
pub proof fn law_refused_replies(
    session: &mut TcpFastbootSession,
    packet: &[u8],
    parsed: Option<(ParsedCommand, usize)>,
    host: UpdateHost,
    machine: Machine,
    step: TcpStep,
)
    requires
        old(session).wf(),
        call_ensures(parse_command, (packet,), parsed),
        call_ensures(TcpFastbootSession::dispatch, (session, packet, &host, &machine), step),
    ensures
        parsed matches Some((command, _)) ==> {
            &&& command is FetchUnknownPart || command is FlashUnknownPart ==> sends(
                step,
                "FAILpartition does not exist".spec_bytes(),
            ) && step.next == TcpNext::Command && *final(session) == *old(session)
            &&& command is Unsupported ==> sends(step, "FAILunknown command".spec_bytes())
                && step.next == TcpNext::Command && *final(session) == *old(session)
            &&& command is Flash && !old(session).fastboot_pending_flash ==> sends(
                step,
                "FAILflash before download".spec_bytes(),
            ) && step.next == TcpNext::Command && *final(session) == *old(session)
        },
        parsed is None ==> sends(step, "FAILunknown command".spec_bytes()) && step.next
            == TcpNext::Command && *final(session) == *old(session),
{
    let replies = choose|replies: Seq<Seq<u8>>| #[trigger]
        final(session).dispatched(
            *old(session),
            host,
            machine,
            command_in(packet@),
            replies,
            step.next,
        ) && step.says(replies, step.next);
    if replies.len() == 1 {
        assert(replies =~= seq![replies[0]]);
        lemma_one_packet(step, replies[0], step.next);
    }
}

/// Closing and flashing end the data of an open transfer and wait for the verdict,
/// flashing with a word to the host; without an open transfer the host is told
/// `FAILclose` behind that, and nothing waits to be flashed any more.
pub proof fn law_finishing_replies(
    session: &mut TcpFastbootSession,
    packet: &[u8],
    command: ParsedCommand,
    used: usize,
    host: UpdateHost,
    machine: Machine,
    step: TcpStep,
)
    requires
        old(session).wf(),
        command is Close || (command is Flash && old(session).fastboot_pending_flash),
        call_ensures(parse_command, (packet,), Some((command, used))),
        call_ensures(TcpFastbootSession::dispatch, (session, packet, &host, &machine), step),
    ensures
        ({
            let open = old(session).sink.tx is Some || old(session).sink.status is Some;
            &&& open ==> step.next == TcpNext::Verdict && final(session).sink.tx is None
            &&& open && command is Close ==> step.packets@.len() == 0
            &&& open && command is Flash ==> sends(step, "INFOwaiting for SWUpdate".spec_bytes())
            &&& !open ==> step.next == TcpNext::Command && !final(session).fastboot_pending_flash
            &&& !open && command is Close ==> sends(step, "FAILclose".spec_bytes())
            &&& !open && command is Flash ==> step.packets@.len() == 2 && step.packets@[0]@
                == crate::wire::be64("INFOwaiting for SWUpdate".spec_bytes().len() as u64)
                + "INFOwaiting for SWUpdate".spec_bytes() && step.packets@[1]@ == crate::wire::be64(
                "FAILclose".spec_bytes().len() as u64,
            ) + "FAILclose".spec_bytes()
            &&& open ==> *final(session) == (TcpFastbootSession {
                sink: SwupdateSession { tx: None, ..old(session).sink },
                ..*old(session)
            })
            &&& !open ==> *final(session) == (TcpFastbootSession {
                fastboot_pending_flash: false,
                ..*old(session)
            })
        }),
{
    let replies = choose|replies: Seq<Seq<u8>>| #[trigger]
        final(session).dispatched(
            *old(session),
            host,
            machine,
            command_in(packet@),
            replies,
            step.next,
        ) && step.says(replies, step.next);
    assert(packet_bytes(step.packets@).len() == step.packets@.len());
    assert(frames(replies).len() == replies.len());
    if replies.len() == 1 {
        assert(replies =~= seq![replies[0]]);
        lemma_one_packet(step, replies[0], step.next);
    } else if replies.len() == 2 {
        assert(replies =~= seq![replies[0], replies[1]]);
        lemma_two_packets(step, replies[0], replies[1], step.next);
    }
}

/// A variable is answered like `getvar` says, and one that the device does not have
/// like a command that it does not have. Nothing changes.
pub proof fn law_variable_reply(
    session: &mut TcpFastbootSession,
    packet: &[u8],
    used: usize,
    name: String,
    asked: &str,
    serial: &str,
    json_len: usize,
    value: Option<Vec<u8>>,
    host: UpdateHost,
    machine: Machine,
    step: TcpStep,
)
    requires
        old(session).wf(),
        call_ensures(parse_command, (packet,), Some((ParsedCommand::GetVar(name), used))),
        asked@ == name@ && serial@ == old(session).serial@,
        call_ensures(Machine::fused_json_len, (&machine, &host.boot), json_len),
        call_ensures(fastboot_getvar_reply, (asked, serial, &host.boot, json_len), value),
        call_ensures(TcpFastbootSession::dispatch, (session, packet, &host, &machine), step),
    ensures
        value matches Some(v) ==> sends(step, v@),
        value is None ==> sends(step, "FAILunknown command".spec_bytes()),
        step.next == TcpNext::Command,
        *final(session) == *old(session),
{
    let replies = choose|replies: Seq<Seq<u8>>| #[trigger]
        final(session).dispatched(
            *old(session),
            host,
            machine,
            command_in(packet@),
            replies,
            step.next,
        ) && step.says(replies, step.next);
    assert(replies =~= seq![replies[0]]);
    lemma_one_packet(step, replies[0], step.next);
}

/// The system information is sent as its header, the report under the serial number
/// of the session, and `OKAY`.
pub proof fn law_fetch_reply(
    session: &mut TcpFastbootSession,
    packet: &[u8],
    used: usize,
    target: crate::fastboot_proto::FetchTarget,
    info: SystemInfo,
    report: Vec<u8>,
    len: usize,
    header: String,
    host: UpdateHost,
    machine: Machine,
    step: TcpStep,
)
    requires
        old(session).wf(),
        call_ensures(parse_command, (packet,), Some((ParsedCommand::Fetch(target), used))),
        call_ensures(
            SystemInfo::collect,
            (Some(old(session).serial), &machine.base, &host.boot),
            info,
        ),
        call_ensures(SystemInfo::to_json_bytes, (&info,), report),
        len == report@.len(),
        call_ensures(data_header, (len,), header),
        call_ensures(TcpFastbootSession::dispatch, (session, packet, &host, &machine), step),
    ensures
        step.packets@.len() == 3,
        step.packets@[0]@ == crate::wire::be64(encode_utf8(header@).len() as u64) + encode_utf8(
            header@,
        ),
        step.packets@[1]@ == crate::wire::be64(report@.len() as u64) + report@,
        step.packets@[2]@ == crate::wire::be64("OKAY".spec_bytes().len() as u64)
            + "OKAY".spec_bytes(),
        step.next == TcpNext::Command,
        *final(session) == *old(session),
{
    let replies = choose|replies: Seq<Seq<u8>>| #[trigger]
        final(session).dispatched(
            *old(session),
            host,
            machine,
            command_in(packet@),
            replies,
            step.next,
        ) && step.says(replies, step.next);
    assert(packet_bytes(step.packets@).len() == step.packets@.len());
    assert(frames(replies).len() == 3);
    assert(packet_bytes(step.packets@)[0] == frames(replies)[0]);
    assert(packet_bytes(step.packets@)[1] == frames(replies)[1]);
    assert(packet_bytes(step.packets@)[2] == frames(replies)[2]);
    assert(frames(replies)[0] == frame(replies[0]));
    assert(frames(replies)[1] == frame(replies[1]));
    assert(frames(replies)[2] == frame(replies[2]));
}

/// A verdict is told as `OKAY` or `FAILclose`, and everything starts over; a restart
/// that was due stays due.
pub proof fn law_finished(
    session: &mut TcpFastbootSession,
    verdict: Result<(), IoError>,
    step: TcpStep,
)
    requires
        call_ensures(TcpFastbootSession::finished, (session, &verdict), step),
    ensures
        verdict is Ok ==> sends(step, "OKAY".spec_bytes()),
        verdict is Err ==> sends(step, "FAILclose".spec_bytes()),
        step.next == TcpNext::Command,
        !final(session).fastboot_usb_session_open && !final(session).fastboot_pending_flash,
        final(session).sink.fed().len() == 0 && !final(session).sink.opened(),
        final(session).restart_due <==> old(session).restart_due || old(session).sink.restart_due,
        final(session).serial == old(session).serial,
{
    lemma_one_packet(
        step,
        (match verdict {
            Ok(_) => OKAY,
            Err(_) => FAIL_CLOSE,
        }).spec_bytes(),
        TcpNext::Command,
    );
}

/// The transfer of a session is torn down after a fault and left alone otherwise; a
/// fault of the commands is reported before one of the closing.
pub proof fn law_ended(
    session: &mut TcpFastbootSession,
    result: Result<(), IoError>,
    closing: Result<(), IoError>,
    task: Option<JoinHandle<Result<(), IoError>>>,
    outcome: Result<(), IoError>,
)
    requires
        old(session).wf(),
        call_ensures(TcpFastbootSession::ended, (session, &result), task),
        call_ensures(session_result, (result, closing), outcome),
    ensures
        result is Ok ==> *final(session) == *old(session) && task is None && outcome == closing,
        result is Err ==> final(session).sink.tx is None && final(session).sink.status is None
            && outcome is Err && outcome->Err_0 == result->Err_0,
        result is Err ==> (old(session).sink.status matches Some(
            crate::swupdate::session::StatusTask::Running(running),
        ) ==> (task matches Some(t) && crate::queue::asked_to_stop(t) && crate::queue::task_id(t)
            == crate::queue::task_id(running))),
        final(session).serial == old(session).serial
            && final(session).restart_due == old(session).restart_due,
{
}

/// A new session has nothing open and nothing pending.
pub proof fn law_new_session(serial: &str, params: SwupdateParams, session: TcpFastbootSession)
    requires
        call_ensures(TcpFastbootSession::new, (serial, params), session),
    ensures
        session.serial@ == serial@,
        session.sink.params == params && session.params == params,
        session.sink.max_block_size == 131072,
        !session.sink.opened() && session.sink.fed().len() == 0,
        !session.fastboot_usb_session_open && !session.fastboot_pending_flash
            && !session.restart_due,
{
}

/// A read of a download asks for a length prefix at the end of a packet, and
/// otherwise for no more than is left of the packet, of the download and of a
/// buffer; at the end of the download there is nothing to read.
pub proof fn law_next_read(source: FastbootDownloadSource, plan: ReadPlan, start: FastbootDownloadSource)
    requires
        call_ensures(FastbootDownloadSource::next_read, (&source,), plan),
        call_ensures(FastbootDownloadSource::new, (source.remaining,), start),
    ensures
        source.remaining == 0 <==> plan is Nothing,
        source.remaining > 0 && source.frame_remaining == 0 && !source.frame_started ==> plan
            is Header,
        source.remaining > 0 && (source.frame_remaining > 0 || source.frame_started) ==> (
        plan matches ReadPlan::Payload(n) && n <= source.remaining && n <= source.frame_remaining
            && n <= 131072 && (n == source.remaining || n == source.frame_remaining || n
            == 131072)),
        start.remaining == source.remaining && start.frame_remaining == 0 && !start.frame_started
            && start.forwarding,
{
}

/// A length prefix says how much of a packet is to come; a connection that is closed
/// in its place was closed within the download.
pub proof fn law_prefix_read(
    source: &mut FastbootDownloadSource,
    header: Option<u64>,
    result: Result<(), IoError>,
)
    requires
        call_ensures(FastbootDownloadSource::header_read, (source, header), result),
    ensures
        header matches Some(len) ==> result is Ok && final(source).frame_remaining == len
            && final(source).frame_started,
        header is None ==> (result matches Err(e) && e.kind == ErrorKind::UnexpectedEof
            && e.message@ == "connection closed mid-download"@) && *final(source) == *old(source),
        final(source).remaining == old(source).remaining
            && final(source).forwarding == old(source).forwarding,
{
}

/// What was read counts for the download and for the packet; a read of nothing means
/// that the connection was closed.
pub proof fn law_payload_read(
    source: &mut FastbootDownloadSource,
    read: usize,
    result: Result<(), IoError>,
)
    requires
        read <= old(source).remaining && read <= old(source).frame_remaining && read <= 131072,
        call_ensures(FastbootDownloadSource::payload_read, (source, read), result),
    ensures
        read > 0 ==> result is Ok && final(source).remaining + read == old(source).remaining
            && final(source).frame_remaining + read == old(source).frame_remaining
                && !final(source).frame_started,
        read == 0 ==> (result matches Err(e) && e.kind == ErrorKind::UnexpectedEof && e.message@
            == "connection closed mid-download"@) && *final(source) == *old(source),
        final(source).forwarding == old(source).forwarding,
{
}

/// The end of a download is told as `OKAY`. Blocks are dropped once SWUpdate has
/// come to a good verdict. A bad verdict is told as `FAILwrite failed` and ends the
/// session, with the transfer torn down.
pub proof fn law_stream(
    session: &mut TcpFastbootSession,
    source: &mut FastbootDownloadSource,
    block: Option<BytesMut>,
    host: UpdateHost,
    step: StreamStep,
)
    requires
        old(session).wf(),
        call_ensures(
            TcpFastbootSession::stream_download,
            (session, source, block, &host),
            step,
        ),
    ensures
        block is None ==> (step matches StreamStep::Complete(s) && sends(s, "OKAY".spec_bytes())
            && s.next == TcpNext::Command) && *final(session) == *old(session),
        block is Some && !old(source).forwarding ==> step is Next
            && *final(session) == *old(session) && *final(source) == *old(source),
        step matches StreamStep::Failed { step: s, stopped, err } ==> sends(
            s,
            "FAILwrite failed".spec_bytes(),
        ) && final(session).sink.tx is None && final(session).sink.status is None,
        block matches Some(b) ==> (step is Next && final(source).forwarding
            ==> final(session).sink.fed() == old(session).sink.fed() + contents(b)),
        block matches Some(b) ==> (step matches StreamStep::Blocked(back) ==> contents(back)
            == contents(b) && final(session).sink.fed() == old(session).sink.fed()),
        block is Some && old(source).forwarding && old(session).sink.opened() ==> (
        old(session).sink.terminal matches Some(Err(_)) ==> step is Failed),
        block is Some && old(source).forwarding && old(session).sink.opened() ==> (
        old(session).sink.terminal matches Some(Ok(_)) ==> step is Next
            && !final(source).forwarding),
        final(source).remaining == old(source).remaining,
        block is Some ==> !(step is Complete),
{
    let after = *final(session);
    let before = *old(session);
    let end = *final(source);
    let start = *old(source);
    if let Some(b) = block {
        if start.forwarding {
            law_streamed_in_order(after, end, before, start, host, contents(b), step);
            let (sink, inner) = choose|sink: SwupdateSession, inner: PumpStep|
                {
                    let mid = TcpFastbootSession { sink, ..before };
                    &&& #[trigger] pumped(sink, before.sink, host, contents(b), inner)
                    &&& sink.wf()
                    &&& after.streamed(end, mid, start, inner, step)
                };
            if let StreamStep::Failed { step: s, stopped, err } = step {
                lemma_one_packet(s, FAIL_EPIPE.spec_bytes(), TcpNext::Command);
            }
        }
    } else if let StreamStep::Complete(s) = step {
        lemma_one_packet(s, OKAY.spec_bytes(), TcpNext::Command);
    }
}

/// A block that is offered again is fed, handed back whole, or not wanted any more.
pub proof fn law_resume(
    session: &mut TcpFastbootSession,
    source: &mut FastbootDownloadSource,
    block: BytesMut,
    host: UpdateHost,
    step: StreamStep,
)
    requires
        old(session).wf(),
        old(source).forwarding,
        call_ensures(TcpFastbootSession::resume, (session, source, block, &host), step),
    ensures
        step is Next && final(source).forwarding
            ==> final(session).sink.fed() == old(session).sink.fed() + contents(block),
        step matches StreamStep::Blocked(back) ==> contents(back) == contents(block)
            && final(session).sink.fed() == old(session).sink.fed(),
        final(source).remaining == old(source).remaining,
        !(step is Complete),
{
    let after = *final(session);
    let before = *old(session);
    law_streamed_in_order(after, *final(source), before, *old(source), host, contents(block), step);
    let (sink, inner) = choose|sink: SwupdateSession, inner: PumpStep|
        {
            let mid = TcpFastbootSession { sink, ..before };
            &&& #[trigger] offered(sink, before.sink, host, contents(block), inner)
            &&& sink.wf()
            &&& after.streamed(*final(source), mid, *old(source), inner, step)
        };
}

} // verus!
