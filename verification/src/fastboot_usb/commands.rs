//! The command interpreter of the fastboot-usb function.

use bytes::BytesMut;
use vstd::prelude::*;
use vstd::string::StringSliceAdditionalSpecFns;
use vstd::utf8::encode_utf8;

use crate::buffer::{self, contents};
use crate::fastboot_proto::{
    command_at, data_header, data_header_text, fastboot_getvar_reply, law_consumed, parse_command,
    variable, Command, DownloadKind, ParsedCommand, FAIL_BADSIZE, FAIL_CLOSE, FAIL_CMD, FAIL_FLASH,
    FAIL_OPEN, FAIL_UNKNOWN_PART, INFO_WAIT_SWUPDATE, OKAY,
};
use crate::fastboot_usb::state::{
    acts, only, push_action, push_reply, Act, FastbootUsbState, UsbAction,
};
use crate::swupdate::config::UpdateHost;
use crate::swupdate::session::SwupdateSession;
use crate::sysinfo::runtime::{machine_json, Machine, SystemInfo};

verus! {

/// What became of a command.
pub enum CommandStep {
    /// It was carried out (`true`) or refused.
    Done(bool),
    /// Its data phase has to be announced.
    SendHeader {
        /// Number of bytes the host will send.
        len: usize,
        /// Whether the transfer is a fastboot or plain FBK download.
        kind: DownloadKind,
    },
}

impl FastbootUsbState {
    /// Whether opening the transfer of `before` can give `self`: an open one
    /// stays as it is, and none is opened while a restart is due.
    pub open spec fn begun(
        self,
        before: FastbootUsbState,
        host: UpdateHost,
        begun: bool,
        actions: Seq<Act>,
    ) -> bool {
        &&& self.wf()
        &&& actions == (if begun {
            Seq::<Act>::empty()
        } else {
            only(FAIL_OPEN)
        })
        &&& self == (FastbootUsbState { download: self.download, ..before })
        &&& match before.download {
            None => !begun && self.download is None,
            Some(s) => if s.opened() {
                begun && self.download == before.download
            } else if host.restart_pending {
                &&& !begun
                &&& self.download matches Some(after) && after == (SwupdateSession {
                    terminal: None,
                    sent: after.sent,
                    ..s
                }) && after.sent@ == Seq::<Seq<u8>>::empty()
            } else {
                begun && (self.download matches Some(after) && after.newly_opened(s, host.boot))
            },
        }
    }

    fn begin_download_command(&mut self, host: &UpdateHost, out: &mut Vec<UsbAction>) -> (
        begun: bool)
        requires
            old(self).wf(),
        ensures
            exists|actions: Seq<Act>| #[trigger]
                final(self).begun(*old(self), *host, begun, actions) && acts(final(out)@) == acts(
                    old(out)@,
                ) + actions,
    {
        let opened = match self.download.as_mut() {
            Some(download) => download.open(host).is_ok(),
            None => false,
        };
        if !opened {
            push_reply(out, FAIL_OPEN);
            assert(acts(out@) =~= acts(old(out)@) + only(FAIL_OPEN));
            assert(self.begun(*old(self), *host, false, only(FAIL_OPEN)));
            return false;
        }
        assert(acts(out@) =~= acts(old(out)@) + Seq::<Act>::empty());
        assert(self.begun(*old(self), *host, true, Seq::<Act>::empty()));
        true
    }

    /// The transfer of `before` with the end of its data signalled and the
    /// verdict awaited.
    pub open spec fn awaiting_verdict(self) -> FastbootUsbState {
        FastbootUsbState {
            download: Some(SwupdateSession { tx: None, ..self.download->0 }),
            finish_pending: true,
            ..self
        }
    }

    /// A transfer is open.
    pub open spec fn transfer_open(self) -> bool {
        self.download matches Some(s) && s.opened()
    }

    fn start_finish_download_command(&mut self, out: &mut Vec<UsbAction>) -> (started: bool)
        requires
            old(self).wf(),
        ensures
            final(self).wf(),
            started == old(self).transfer_open(),
            started ==> *final(self) == old(self).awaiting_verdict() && acts(final(out)@) == acts(
                old(out)@,
            ),
            !started ==> *final(self) == *old(self) && acts(final(out)@) == acts(old(out)@) + only(
                FAIL_CLOSE,
            ),
    {
        let open = match &self.download {
            Some(download) => download.is_open(),
            None => false,
        };
        if !open {
            push_reply(out, FAIL_CLOSE);
            assert(acts(out@) =~= acts(old(out)@) + only(FAIL_CLOSE));
            return false;
        }
        if let Some(download) = self.download.as_mut() {
            download.eof();
        }
        self.finish_pending = true;
        true
    }

    fn handle_wopen_command(&mut self, host: &UpdateHost, out: &mut Vec<UsbAction>) -> (r: bool)
        requires
            old(self).wf(),
        ensures
            final(self).wf(),
            exists|mid: FastbootUsbState, begun: bool, actions: Seq<Act>|
                {
                    &&& #[trigger] mid.begun(*old(self), *host, begun, actions)
                    &&& r == begun
                    &&& *final(self) == mid.after_wopen(begun)
                    &&& acts(final(out)@) == acts(old(out)@) + (actions + (if begun {
                        only(OKAY)
                    } else {
                        Seq::<Act>::empty()
                    }))
                },
    {
        let begun = self.begin_download_command(host, out);
        let ghost mid = *self;
        let ghost actions = choose|actions: Seq<Act>| #[trigger]
            mid.begun(*old(self), *host, begun, actions) && acts(out@) == acts(old(out)@)
                + actions;
        if !begun {
            assert(acts(out@) =~= acts(old(out)@) + (actions + Seq::<Act>::empty()));
            return false;
        }
        self.fastboot_usb_session_open = true;
        self.fastboot_pending_flash = false;
        push_reply(out, OKAY);
        assert(acts(out@) =~= acts(old(out)@) + (actions + only(OKAY)));
        true
    }

    /// The state after a `WOpen` that could open the transfer, or could not.
    pub open spec fn after_wopen(self, begun: bool) -> FastbootUsbState {
        if begun {
            FastbootUsbState {
                fastboot_usb_session_open: true,
                fastboot_pending_flash: false,
                ..self
            }
        } else {
            self
        }
    }

    /// What uploading the system information sends.
    pub open spec fn fetch_acts(self, host: UpdateHost, machine: Machine) -> Seq<Act> {
        let payload = machine_json(self.serial@, machine.base, host.boot);
        seq![
            Act::Series(
                seq![
                    encode_utf8(data_header_text(payload.len())),
                    payload,
                    OKAY.spec_bytes(),
                ],
            ),
        ]
    }

    fn handle_fetch_command(&self, host: &UpdateHost, machine: &Machine, out: &mut Vec<UsbAction>)
        ensures
            acts(final(out)@) == acts(old(out)@) + self.fetch_acts(*host, *machine),
    {
        let info = SystemInfo::collect(Some(self.serial.clone()), &machine.base, &host.boot);
        let payload = info.to_json_bytes();
        let header = data_header(payload.len());
        let mut first: Vec<u8> = Vec::new();
        first.extend_from_slice(header.as_str().as_bytes());
        let mut last: Vec<u8> = Vec::new();
        last.extend_from_slice(OKAY.as_bytes());
        assert(first@ =~= encode_utf8(header@));
        assert(last@ =~= OKAY.spec_bytes());
        let ghost sent = seq![first@, payload@, last@];
        let mut parts: Vec<Vec<u8>> = Vec::new();
        parts.push(first);
        parts.push(payload);
        parts.push(last);
        assert(Seq::new(parts@.len(), |i: int| parts@[i]@) =~= sent);
        push_action(out, UsbAction::Series(parts));
        assert(acts(out@) =~= acts(old(out)@) + self.fetch_acts(*host, *machine));
    }

    fn start_download_transfer(
        &mut self,
        len: usize,
        kind: DownloadKind,
        host: &UpdateHost,
        out: &mut Vec<UsbAction>,
    ) -> (step: CommandStep)
        requires
            old(self).wf(),
        ensures
            exists|begun: bool, actions: Seq<Act>|
                {
                    &&& #[trigger] final(self).begun(*old(self), *host, begun, actions)
                    &&& acts(final(out)@) == acts(old(out)@) + actions
                    &&& step == (if begun {
                        CommandStep::SendHeader { len, kind }
                    } else {
                        CommandStep::Done(false)
                    })
                },
    {
        let open = match &self.download {
            Some(download) => download.is_open(),
            None => false,
        };
        if !open {
            if !self.begin_download_command(host, out) {
                return CommandStep::Done(false);
            }
        } else {
            assert(acts(out@) =~= acts(old(out)@) + Seq::<Act>::empty());
            assert(self.begun(*old(self), *host, true, Seq::<Act>::empty()));
        }
        CommandStep::SendHeader { len, kind }
    }

    /// Whether a flash command can turn `before` into `self`: it is refused
    /// before any download, while data is missing, and where no transfer is
    /// open.
    pub open spec fn flashed(
        self,
        before: FastbootUsbState,
        done: bool,
        actions: Seq<Act>,
    ) -> bool {
        if !before.fastboot_pending_flash {
            !done && self == before && actions == only(FAIL_FLASH)
        } else if before.active() {
            !done && self == before && actions == only(FAIL_BADSIZE)
        } else if !before.transfer_open() {
            !done && self == (FastbootUsbState { fastboot_pending_flash: false, ..before })
                && actions == only(INFO_WAIT_SWUPDATE) + only(FAIL_CLOSE)
        } else {
            done && self == before.awaiting_verdict() && actions == only(INFO_WAIT_SWUPDATE)
        }
    }

    fn finish_flash_download(&mut self, out: &mut Vec<UsbAction>) -> (done: bool)
        requires
            old(self).wf(),
        ensures
            final(self).wf(),
            exists|actions: Seq<Act>| #[trigger]
                final(self).flashed(*old(self), done, actions) && acts(final(out)@) == acts(
                    old(out)@,
                ) + actions,
    {
        if !self.fastboot_pending_flash {
            push_reply(out, FAIL_FLASH);
            assert(acts(out@) =~= acts(old(out)@) + only(FAIL_FLASH));
            assert(self.flashed(*old(self), false, only(FAIL_FLASH)));
            return false;
        }
        if self.download_active() {
            push_reply(out, FAIL_BADSIZE);
            assert(acts(out@) =~= acts(old(out)@) + only(FAIL_BADSIZE));
            assert(self.flashed(*old(self), false, only(FAIL_BADSIZE)));
            return false;
        }
        push_reply(out, INFO_WAIT_SWUPDATE);
        if !self.start_finish_download_command(out) {
            self.fastboot_pending_flash = false;
            let ghost sent = only(INFO_WAIT_SWUPDATE) + only(FAIL_CLOSE);
            assert(acts(out@) =~= acts(old(out)@) + sent);
            assert(self.flashed(*old(self), false, sent));
            return false;
        }
        assert(acts(out@) =~= acts(old(out)@) + only(INFO_WAIT_SWUPDATE));
        assert(self.flashed(*old(self), true, only(INFO_WAIT_SWUPDATE)));
        true
    }

    /// Whether carrying out a command can turn `before` into `self`.
    pub open spec fn commanded(
        self,
        before: FastbootUsbState,
        host: UpdateHost,
        machine: Machine,
        command: Command,
        step: CommandStep,
        actions: Seq<Act>,
    ) -> bool {
        match command {
            Command::WOpen => exists|mid: FastbootUsbState, begun: bool, first: Seq<Act>|
                {
                    &&& #[trigger] mid.begun(before, host, begun, first)
                    &&& step == CommandStep::Done(begun)
                    &&& self == mid.after_wopen(begun)
                    &&& actions == first + (if begun {
                        only(OKAY)
                    } else {
                        Seq::<Act>::empty()
                    })
                },
            Command::GetVar(name) => {
                &&& self == before
                &&& match variable(
                    name,
                    before.serial@,
                    host.boot,
                    machine.fused_json(host.boot).len(),
                ) {
                    Some(value) => step == CommandStep::Done(true) && actions == seq![
                        Act::Reply(OKAY.spec_bytes() + value),
                    ],
                    None => step == CommandStep::Done(false) && actions == only(FAIL_CMD),
                }
            },
            Command::Fetch(_) => step == CommandStep::Done(true) && self == before && actions
                == before.fetch_acts(host, machine),
            Command::FetchUnknownPart | Command::FlashUnknownPart => step == CommandStep::Done(
                false,
            ) && self == before && actions == only(FAIL_UNKNOWN_PART),
            Command::Download(len, kind) => exists|begun: bool|
                {
                    &&& #[trigger] self.begun(before, host, begun, actions)
                    &&& if begun {
                        step matches CommandStep::SendHeader { len: n, kind: k } && n == len && k
                            == kind
                    } else {
                        step == CommandStep::Done(false)
                    }
                },
            Command::Flash(_) => exists|done: bool| #[trigger]
                self.flashed(before, done, actions) && step == CommandStep::Done(done),
            Command::Close => {
                &&& step == CommandStep::Done(before.transfer_open())
                &&& if before.transfer_open() {
                    self == before.awaiting_verdict() && actions == Seq::<Act>::empty()
                } else {
                    self == before && actions == only(FAIL_CLOSE)
                }
            },
            Command::Unsupported => step == CommandStep::Done(false) && self == before && actions
                == only(FAIL_CMD),
        }
    }

    fn handle_command(
        &mut self,
        command: ParsedCommand,
        host: &UpdateHost,
        machine: &Machine,
        out: &mut Vec<UsbAction>,
    ) -> (step: CommandStep)
        requires
            old(self).wf(),
        ensures
            final(self).wf(),
            exists|actions: Seq<Act>| #[trigger]
                final(self).commanded(*old(self), *host, *machine, command@, step, actions) && acts(
                    final(out)@,
                ) == acts(old(out)@) + actions,
    {
        let ghost before = *self;
        let ghost nothing = Seq::<Act>::empty();
        assert(acts(out@) + nothing =~= acts(out@));
        match command {
            ParsedCommand::WOpen => {
                let done = self.handle_wopen_command(host, out);
                let step = CommandStep::Done(done);
                proof {
                    let (mid, begun, first) = choose|
                        mid: FastbootUsbState,
                        begun: bool,
                        first: Seq<Act>,
                    |
                        {
                            &&& #[trigger] mid.begun(before, *host, begun, first)
                            &&& done == begun
                            &&& *self == mid.after_wopen(begun)
                            &&& acts(out@) == acts(old(out)@) + (first + (if begun {
                                only(OKAY)
                            } else {
                                Seq::<Act>::empty()
                            }))
                        };
                    let actions = first + (if begun {
                        only(OKAY)
                    } else {
                        Seq::<Act>::empty()
                    });
                    assert(mid.begun(before, *host, begun, first));
                    assert(self.commanded(before, *host, *machine, command@, step, actions));
                }
                step
            },
            ParsedCommand::GetVar(name) => {
                let json_len: usize = machine.fused_json_len(&host.boot);
                match fastboot_getvar_reply(
                    name.as_str(),
                    self.serial.as_str(),
                    &host.boot,
                    json_len,
                ) {
                    Some(reply) => {
                        let ghost actions = seq![Act::Reply(reply@)];
                        push_action(out, UsbAction::Reply(reply));
                        assert(acts(out@) =~= acts(old(out)@) + actions);
                        let step = CommandStep::Done(true);
                        assert(self.commanded(before, *host, *machine, command@, step, actions));
                        step
                    },
                    None => self.refuse(FAIL_CMD, Ghost(command@), host, machine, out),
                }
            },
            ParsedCommand::Fetch(_) => {
                self.handle_fetch_command(host, machine, out);
                let step = CommandStep::Done(true);
                let ghost actions = before.fetch_acts(*host, *machine);
                assert(self.commanded(before, *host, *machine, command@, step, actions));
                step
            },
            ParsedCommand::FetchUnknownPart | ParsedCommand::FlashUnknownPart => self.refuse(
                FAIL_UNKNOWN_PART,
                Ghost(command@),
                host,
                machine,
                out,
            ),
            ParsedCommand::Download { len, kind } => {
                let step = self.start_download_transfer(len, kind, host, out);
                proof {
                    let (begun, actions) = choose|begun: bool, actions: Seq<Act>|
                        {
                            &&& #[trigger] self.begun(before, *host, begun, actions)
                            &&& acts(out@) == acts(old(out)@) + actions
                            &&& step == (if begun {
                                CommandStep::SendHeader { len, kind }
                            } else {
                                CommandStep::Done(false)
                            })
                        };
                    assert(self.begun(before, *host, begun, actions));
                    assert(self.commanded(before, *host, *machine, command@, step, actions));
                }
                step
            },
            ParsedCommand::Flash(_) => {
                let done = self.finish_flash_download(out);
                let step = CommandStep::Done(done);
                proof {
                    let actions = choose|actions: Seq<Act>| #[trigger]
                        self.flashed(before, done, actions) && acts(out@) == acts(old(out)@)
                            + actions;
                    assert(self.flashed(before, done, actions));
                    assert(self.commanded(before, *host, *machine, command@, step, actions));
                }
                step
            },
            ParsedCommand::Close => {
                let done = self.start_finish_download_command(out);
                let step = CommandStep::Done(done);
                let ghost actions = if done {
                    nothing
                } else {
                    only(FAIL_CLOSE)
                };
                assert(self.commanded(before, *host, *machine, command@, step, actions));
                step
            },
            ParsedCommand::Unsupported => self.refuse(
                FAIL_CMD,
                Ghost(command@),
                host,
                machine,
                out,
            ),
        }
    }

    /// Refuses a command that changes nothing.
    fn refuse(
        &self,
        token: &'static str,
        command: Ghost<Command>,
        host: &UpdateHost,
        machine: &Machine,
        out: &mut Vec<UsbAction>,
    ) -> (step: CommandStep)
        requires
            self.commanded(
                *self,
                *host,
                *machine,
                command@,
                CommandStep::Done(false),
                only(token),
            ),
        ensures
            acts(final(out)@) == acts(old(out)@) + only(token),
            step == CommandStep::Done(false),
            self.commanded(*self, *host, *machine, command@, step, only(token)),
    {
        push_reply(out, token);
        assert(acts(out@) =~= acts(old(out)@) + only(token));
        CommandStep::Done(false)
    }

    /// Whether interpreting the front of `data` can turn `before` into `self`,
    /// with `rest` left of the data. Where there is no command in it, nothing
    /// happens.
    pub open spec fn interpreted(
        self,
        before: FastbootUsbState,
        host: UpdateHost,
        machine: Machine,
        data: Seq<u8>,
        rest: Seq<u8>,
        step: CommandStep,
        actions: Seq<Act>,
    ) -> bool {
        match command_at(data) {
            Some((command, consumed)) => rest == data.skip(consumed) && self.commanded(
                before,
                host,
                machine,
                command,
                step,
                actions,
            ),
            None => step == CommandStep::Done(false) && self == before && rest == data && actions
                == Seq::<Act>::empty(),
        }
    }

    /// Carries out the command at the front of the received data, and takes it
    /// out of the data.
    pub fn handle_command_chunk(
        &mut self,
        chunk: &mut BytesMut,
        host: &UpdateHost,
        machine: &Machine,
        out: &mut Vec<UsbAction>,
    ) -> (step: CommandStep)
        requires
            old(self).wf(),
        ensures
            final(self).wf(),
            exists|actions: Seq<Act>| #[trigger]
                final(self).interpreted(
                    *old(self),
                    *host,
                    *machine,
                    contents(*old(chunk)),
                    contents(*final(chunk)),
                    step,
                    actions,
                ) && acts(final(out)@) == acts(old(out)@) + actions,
    {
        proof {
            law_consumed(contents(*chunk));
        }
        let ghost before = *self;
        let ghost data = contents(*chunk);
        match parse_command(buffer::as_slice(chunk)) {
            Some((command, consumed)) => {
                let _done = buffer::split_to(chunk, consumed);
                let ghost asked = command@;
                let step = self.handle_command(command, host, machine, out);
                proof {
                    let actions = choose|actions: Seq<Act>| #[trigger]
                        self.commanded(before, *host, *machine, asked, step, actions) && acts(
                            out@,
                        ) == acts(old(out)@) + actions;
                    assert(self.interpreted(
                        before,
                        *host,
                        *machine,
                        data,
                        contents(*chunk),
                        step,
                        actions,
                    ));
                }
                step
            },
            None => {
                let step = CommandStep::Done(false);
                let ghost nothing = Seq::<Act>::empty();
                assert(acts(out@) =~= acts(old(out)@) + nothing);
                assert(self.interpreted(
                    before,
                    *host,
                    *machine,
                    data,
                    contents(*chunk),
                    step,
                    nothing,
                ));
                step
            },
        }
    }
}

// ---------------------------------------------------------------------------
// Laws
// ---------------------------------------------------------------------------

/// A session is opened, and a data phase begun, where a transfer is open or can be
/// opened, that is unless a restart is due; otherwise the host is told `FAILopen
/// failed`.
pub proof fn law_opening_replies(
    state: &mut FastbootUsbState,
    chunk: &mut BytesMut,
    host: UpdateHost,
    machine: Machine,
    out: &mut Vec<UsbAction>,
    data: &[u8],
    command: ParsedCommand,
    used: usize,
    step: CommandStep,
)
    requires
        old(state).wf(),
        data@ == contents(*old(chunk)),
        command is WOpen || command is Download,
        call_ensures(parse_command, (data,), Some((command, used))),
        call_ensures(
            FastbootUsbState::handle_command_chunk,
            (state, chunk, &host, &machine, out),
            step,
        ),
    ensures
        contents(*final(chunk)) == data@.skip(used as int),
        ({
            let sent = acts(final(out)@).skip(old(out)@.len() as int);
            let open = old(state).download is Some && (old(state).download->0.tx is Some
                || old(state).download->0.status
                is Some);
            let can_open = open || (old(state).download is Some && !host.restart_pending);
            &&& command is WOpen && can_open ==> step == CommandStep::Done(true) && sent == seq![
                Act::Reply("OKAY".spec_bytes()),
            ] && final(state).fastboot_usb_session_open && !final(state).fastboot_pending_flash
            &&& command is WOpen && !can_open ==> step == CommandStep::Done(false) && sent == seq![
                Act::Reply("FAILopen failed".spec_bytes()),
            ] && final(state).fastboot_usb_session_open == old(state).fastboot_usb_session_open
            &&& command matches ParsedCommand::Download { len, kind } ==> can_open ==> step == (
            CommandStep::SendHeader { len, kind }) && sent.len() == 0
            &&& command is Download && !can_open ==> step == CommandStep::Done(false) && sent
                == seq![Act::Reply("FAILopen failed".spec_bytes())]
            &&& can_open ==> final(state).download is Some && final(state).download->0.opened()
            &&& open ==> final(state).download == old(state).download
            &&& command is Download ==> *final(state) == (FastbootUsbState {
                download: final(state).download,
                ..*old(state)
            })
            &&& command is WOpen && can_open ==> *final(state) == (FastbootUsbState {
                download: final(state).download,
                fastboot_usb_session_open: true,
                fastboot_pending_flash: false,
                ..*old(state)
            })
        }),
{
    let after = *final(state);
    let before = *old(state);
    let actions = choose|actions: Seq<Act>| #[trigger]
        after.interpreted(
            before,
            host,
            machine,
            contents(*old(chunk)),
            contents(*final(chunk)),
            step,
            actions,
        ) && acts(final(out)@) == acts(old(out)@) + actions;
    assert(acts(final(out)@).skip(old(out)@.len() as int) =~= actions);
    if command is WOpen {
        let (mid, begun, first) = choose|mid: FastbootUsbState, begun: bool, first: Seq<Act>|
            {
                &&& #[trigger] mid.begun(before, host, begun, first)
                &&& step == CommandStep::Done(begun)
                &&& after == mid.after_wopen(begun)
                &&& actions == first + (if begun {
                    only(OKAY)
                } else {
                    Seq::<Act>::empty()
                })
            };
        if begun {
            assert(actions =~= only(OKAY));
        } else {
            assert(actions =~= only(FAIL_OPEN));
        }
    } else {
        let begun = choose|begun: bool| #[trigger] after.begun(before, host, begun, actions);
        assert(after.begun(before, host, begun, actions));
    }
}

/// An unknown partition and an unknown command are told as such, and change
/// nothing.
pub proof fn law_refusals(
    state: &mut FastbootUsbState,
    chunk: &mut BytesMut,
    host: UpdateHost,
    machine: Machine,
    out: &mut Vec<UsbAction>,
    data: &[u8],
    command: ParsedCommand,
    used: usize,
    step: CommandStep,
)
    requires
        old(state).wf(),
        data@ == contents(*old(chunk)),
        command is FetchUnknownPart || command is FlashUnknownPart || command is Unsupported,
        call_ensures(parse_command, (data,), Some((command, used))),
        call_ensures(
            FastbootUsbState::handle_command_chunk,
            (state, chunk, &host, &machine, out),
            step,
        ),
    ensures
        contents(*final(chunk)) == data@.skip(used as int),
        ({
            let sent = acts(final(out)@).skip(old(out)@.len() as int);
            &&& command is FetchUnknownPart || command is FlashUnknownPart ==> sent == seq![
                Act::Reply("FAILpartition does not exist".spec_bytes()),
            ]
            &&& command is Unsupported ==> sent == seq![
                Act::Reply("FAILunknown command".spec_bytes()),
            ]
            &&& step == CommandStep::Done(false) && *final(state) == *old(state)
        }),
{
    let after = *final(state);
    let before = *old(state);
    let actions = choose|actions: Seq<Act>| #[trigger]
        after.interpreted(
            before,
            host,
            machine,
            contents(*old(chunk)),
            contents(*final(chunk)),
            step,
            actions,
        ) && acts(final(out)@) == acts(old(out)@) + actions;
    assert(acts(final(out)@).skip(old(out)@.len() as int) =~= actions);
}

/// Closing an open transfer ends its data and waits for the verdict without a word;
/// without one the host is told `FAILclose`.
pub proof fn law_close_replies(
    state: &mut FastbootUsbState,
    chunk: &mut BytesMut,
    host: UpdateHost,
    machine: Machine,
    out: &mut Vec<UsbAction>,
    data: &[u8],
    command: ParsedCommand,
    used: usize,
    step: CommandStep,
)
    requires
        old(state).wf(),
        data@ == contents(*old(chunk)),
        command is Close,
        call_ensures(parse_command, (data,), Some((command, used))),
        call_ensures(
            FastbootUsbState::handle_command_chunk,
            (state, chunk, &host, &machine, out),
            step,
        ),
    ensures
        contents(*final(chunk)) == data@.skip(used as int),
        ({
            let sent = acts(final(out)@).skip(old(out)@.len() as int);
            let open = old(state).download is Some && (old(state).download->0.tx is Some
                || old(state).download->0.status
                is Some);
            &&& open ==> step == CommandStep::Done(true) && sent.len() == 0
                && final(state).finish_pending && final(state).download->0.tx is None
            &&& !open ==> step == CommandStep::Done(false) && sent == seq![
                Act::Reply("FAILclose".spec_bytes()),
            ] && *final(state) == *old(state)
            &&& open ==> *final(state) == (FastbootUsbState {
                download: Some(SwupdateSession { tx: None, ..old(state).download->0 }),
                finish_pending: true,
                ..*old(state)
            })
        }),
{
    let after = *final(state);
    let before = *old(state);
    let actions = choose|actions: Seq<Act>| #[trigger]
        after.interpreted(
            before,
            host,
            machine,
            contents(*old(chunk)),
            contents(*final(chunk)),
            step,
            actions,
        ) && acts(final(out)@) == acts(old(out)@) + actions;
    assert(acts(final(out)@).skip(old(out)@.len() as int) =~= actions);
}

/// Flashing is refused before a download and while data of it is missing. With all
/// of it there the host is told to wait, and where no transfer is open that it
/// failed.
pub proof fn law_flash_replies(
    state: &mut FastbootUsbState,
    chunk: &mut BytesMut,
    host: UpdateHost,
    machine: Machine,
    out: &mut Vec<UsbAction>,
    data: &[u8],
    command: ParsedCommand,
    used: usize,
    step: CommandStep,
)
    requires
        old(state).wf(),
        data@ == contents(*old(chunk)),
        command is Flash,
        call_ensures(parse_command, (data,), Some((command, used))),
        call_ensures(
            FastbootUsbState::handle_command_chunk,
            (state, chunk, &host, &machine, out),
            step,
        ),
    ensures
        contents(*final(chunk)) == data@.skip(used as int),
        ({
            let sent = acts(final(out)@).skip(old(out)@.len() as int);
            let open = old(state).download is Some && (old(state).download->0.tx is Some
                || old(state).download->0.status
                is Some);
            let complete = old(state).downloaded_size >= old(state).download_size;
            let pending = old(state).fastboot_pending_flash;
            &&& !pending ==> step == CommandStep::Done(false) && sent == seq![
                Act::Reply("FAILflash before download".spec_bytes()),
            ] && *final(state) == *old(state)
            &&& pending && !complete ==> step == CommandStep::Done(false) && sent == seq![
                Act::Reply("FAILbad size".spec_bytes()),
            ] && *final(state) == *old(state)
            &&& pending && complete && open ==> step == CommandStep::Done(true) && sent == seq![
                Act::Reply("INFOwaiting for SWUpdate".spec_bytes()),
            ] && final(state).finish_pending && final(state).download->0.tx is None
            &&& pending && complete && !open ==> step == CommandStep::Done(false) && sent == seq![
                Act::Reply("INFOwaiting for SWUpdate".spec_bytes()),
                Act::Reply("FAILclose".spec_bytes()),
            ] && !final(state).fastboot_pending_flash
                && final(state).finish_pending == old(state).finish_pending
            &&& pending && complete && open ==> *final(state) == (FastbootUsbState {
                download: Some(SwupdateSession { tx: None, ..old(state).download->0 }),
                finish_pending: true,
                ..*old(state)
            })
        }),
{
    let after = *final(state);
    let before = *old(state);
    let actions = choose|actions: Seq<Act>| #[trigger]
        after.interpreted(
            before,
            host,
            machine,
            contents(*old(chunk)),
            contents(*final(chunk)),
            step,
            actions,
        ) && acts(final(out)@) == acts(old(out)@) + actions;
    assert(acts(final(out)@).skip(old(out)@.len() as int) =~= actions);
    let done = choose|done: bool| #[trigger]
        after.flashed(before, done, actions) && step == CommandStep::Done(done);
    assert(after.flashed(before, done, actions));
    assert(only(INFO_WAIT_SWUPDATE) + only(FAIL_CLOSE) =~= seq![
        Act::Reply(INFO_WAIT_SWUPDATE.spec_bytes()),
        Act::Reply(FAIL_CLOSE.spec_bytes()),
    ]);
}

/// A variable is answered like `getvar` says, and one that the device does not have
/// like a command that it does not have. Nothing changes.
pub proof fn law_variable_reply(
    state: &mut FastbootUsbState,
    chunk: &mut BytesMut,
    host: UpdateHost,
    machine: Machine,
    out: &mut Vec<UsbAction>,
    data: &[u8],
    used: usize,
    name: String,
    asked: &str,
    serial: &str,
    json_len: usize,
    reply: Option<Vec<u8>>,
    step: CommandStep,
)
    requires
        old(state).wf(),
        data@ == contents(*old(chunk)),
        call_ensures(parse_command, (data,), Some((ParsedCommand::GetVar(name), used))),
        asked@ == name@ && serial@ == old(state).serial@,
        call_ensures(Machine::fused_json_len, (&machine, &host.boot), json_len),
        call_ensures(fastboot_getvar_reply, (asked, serial, &host.boot, json_len), reply),
        call_ensures(
            FastbootUsbState::handle_command_chunk,
            (state, chunk, &host, &machine, out),
            step,
        ),
    ensures
        *final(state) == *old(state),
        ({
            let sent = acts(final(out)@).skip(old(out)@.len() as int);
            &&& reply matches Some(r) ==> step == CommandStep::Done(true) && sent == seq![
                Act::Reply(r@),
            ]
            &&& reply is None ==> step == CommandStep::Done(false) && sent == seq![
                Act::Reply("FAILunknown command".spec_bytes()),
            ]
        }),
{
    let actions = choose|actions: Seq<Act>| #[trigger]
        final(state).interpreted(
            *old(state),
            host,
            machine,
            contents(*old(chunk)),
            contents(*final(chunk)),
            step,
            actions,
        ) && acts(final(out)@) == acts(old(out)@) + actions;
    assert(acts(final(out)@).skip(old(out)@.len() as int) =~= actions);
}

/// The system information is uploaded as its header, the report under the serial
/// number of the function, and `OKAY`. Nothing changes.
pub proof fn law_fetch_reply(
    state: &mut FastbootUsbState,
    chunk: &mut BytesMut,
    host: UpdateHost,
    machine: Machine,
    out: &mut Vec<UsbAction>,
    data: &[u8],
    used: usize,
    target: crate::fastboot_proto::FetchTarget,
    info: SystemInfo,
    report: Vec<u8>,
    len: usize,
    header: String,
    step: CommandStep,
)
    requires
        old(state).wf(),
        data@ == contents(*old(chunk)),
        call_ensures(parse_command, (data,), Some((ParsedCommand::Fetch(target), used))),
        call_ensures(
            SystemInfo::collect,
            (Some(old(state).serial), &machine.base, &host.boot),
            info,
        ),
        call_ensures(SystemInfo::to_json_bytes, (&info,), report),
        len == report@.len(),
        call_ensures(data_header, (len,), header),
        call_ensures(
            FastbootUsbState::handle_command_chunk,
            (state, chunk, &host, &machine, out),
            step,
        ),
    ensures
        *final(state) == *old(state),
        step == CommandStep::Done(true),
        acts(final(out)@).skip(old(out)@.len() as int) == seq![
            Act::Series(seq![encode_utf8(header@), report@, "OKAY".spec_bytes()]),
        ],
{
    let actions = choose|actions: Seq<Act>| #[trigger]
        final(state).interpreted(
            *old(state),
            host,
            machine,
            contents(*old(chunk)),
            contents(*final(chunk)),
            step,
            actions,
        ) && acts(final(out)@) == acts(old(out)@) + actions;
    assert(acts(final(out)@).skip(old(out)@.len() as int) =~= actions);
}

/// Data that holds no command changes nothing and is not answered.
pub proof fn law_no_command(
    state: &mut FastbootUsbState,
    chunk: &mut BytesMut,
    host: UpdateHost,
    machine: Machine,
    out: &mut Vec<UsbAction>,
    data: &[u8],
    step: CommandStep,
)
    requires
        old(state).wf(),
        data@ == contents(*old(chunk)),
        call_ensures(parse_command, (data,), None),
        call_ensures(
            FastbootUsbState::handle_command_chunk,
            (state, chunk, &host, &machine, out),
            step,
        ),
    ensures
        *final(state) == *old(state),
        contents(*final(chunk)) == contents(*old(chunk)),
        step == CommandStep::Done(false),
        acts(final(out)@) == acts(old(out)@),
{
    assert(acts(old(out)@) + Seq::<Act>::empty() =~= acts(old(out)@));
}

} // verus!
