//! Device handles and the device session: opening the exclusive connection,
//! the synchronous command/response exchange over the fixed bulk endpoints,
//! the init sequence, and the idempotent reset.

use crate::protocol::{
    check_response, require_full_write, spec_check_status, ENDPOINT_IN, ENDPOINT_OUT,
    INIT_CMD_FIRST, INIT_CMD_SECOND, STATUS_SIGNATURE_FAILED,
};
use crate::transport;
use crate::transport::{TransportDevice, TransportHandle};
use crate::DriverError;
use vstd::prelude::*;

verus! {

/// A matched but unopened device: the transport's reference to the node
/// together with the identity and position read at enumeration time.
pub struct UsbDevice {
    /// The transport's reference to the device node.
    pub dev: TransportDevice,
    /// Vendor identifier read from the device descriptor.
    pub vendor: u16,
    /// Product identifier read from the device descriptor.
    pub product: u16,
    /// Bus the device sat on at enumeration time.
    pub bus: u8,
    /// Address on that bus at enumeration time.
    pub address: u8,
}

impl UsbDevice {
    /// Open this device: ask the transport for the exclusive connection and
    /// start a session with the default timeout of one second and no reset
    /// performed yet.
    pub fn open(&self) -> (r: Result<OpenedUsbDevice, DriverError>)
        ensures
            match r {
                Ok(s) => !s.spec_reset_called() && s.resets_performed() == 0
                    && s.spec_timeout_ms() == 1000,
                Err(e) => e matches DriverError::OpenDevice(_),
            },
    {
        match transport::open_device(&self.dev) {
            Ok(hnd) => Ok(
                OpenedUsbDevice {
                    hnd,
                    reset_called: false,
                    default_timeout_ms: 1000,
                    reset_count: Ghost(0nat),
                },
            ),
            Err(e) => Err(DriverError::OpenDevice(e)),
        }
    }
}

/// A live session on an opened device. The connection is owned exclusively
/// and the session tracks whether the device has been reset, so that the
/// reset happens at most once however often `reset` is called.
pub struct OpenedUsbDevice {
    /// The live, exclusively owned connection.
    pub hnd: TransportHandle,
    reset_called: bool,
    /// Timeout in milliseconds applied to every blocking transfer.
    pub default_timeout_ms: u64,
    reset_count: Ghost<nat>,
}

/// How one call of `reset` may change a session: `pre_called`/`post_called`
/// are the reset flag before and after, `pre_n`/`post_n` count the
/// underlying transport resets performed so far, and `ok` says whether the
/// call returned success. A session already reset succeeds without another
/// underlying reset; otherwise exactly one underlying reset is attempted
/// and the flag is set exactly when it succeeded.
pub open spec fn reset_transition(
    pre_called: bool,
    pre_n: nat,
    post_called: bool,
    post_n: nat,
    ok: bool,
) -> bool {
    if pre_called {
        ok && post_called && post_n == pre_n
    } else {
        &&& post_n == pre_n + 1
        &&& post_called == ok
    }
}

/// Calling `reset` twice performs the underlying reset at most once: after
/// a first call that succeeded, the second call is a no-op success, leaving
/// both the flag and the count of underlying resets exactly as they were.
pub proof fn lemma_reset_idempotent(
    n0: nat,
    c1: bool,
    n1: nat,
    ok1: bool,
    c2: bool,
    n2: nat,
    ok2: bool,
)
    requires
        reset_transition(false, n0, c1, n1, ok1),
        ok1,
        reset_transition(c1, n1, c2, n2, ok2),
    ensures
        ok2,
        c2 == c1,
        n2 == n1,
        n2 == n0 + 1,
{
}

/// A session that never had `reset` called performs, at the single reset
/// attempt teardown makes, exactly one underlying reset.
pub proof fn lemma_teardown_single_reset(c1: bool, n1: nat, ok1: bool)
    requires
        reset_transition(false, 0, c1, n1, ok1),
    ensures
        n1 == 1,
{
}

/// What one command/response round with status validation guarantees:
/// `pre` and `post` are the response buffer before and after the call. On
/// success the bytes read open with status zero; a protocol error is
/// exactly the verdict of `spec_check_status` on the bytes actually read;
/// a failure on the write side leaves the buffer untouched.
pub open spec fn run_and_check_post(
    r: Result<usize, DriverError>,
    pre: Seq<u8>,
    post: Seq<u8>,
) -> bool {
    &&& post.len() == pre.len()
    &&& match r {
        Ok(n) => n <= post.len() && spec_check_status(post.take(n as int)) is Ok,
        Err(e) => match e {
            DriverError::UsbWrite(_) => post == pre,
            DriverError::UsbWritePartial => post == pre,
            DriverError::UsbReadResponse(_) => true,
            _ => exists|n: int|
                0 <= n <= post.len() && #[trigger] spec_check_status(post.take(n)) == Err::<
                    (),
                    DriverError,
                >(e),
        },
    }
}

impl OpenedUsbDevice {
    /// Whether a reset has already succeeded in this session; once true it
    /// never reverts for the session's lifetime.
    pub closed spec fn spec_reset_called(&self) -> bool {
        self.reset_called
    }

    /// How many underlying transport resets this session has performed.
    pub closed spec fn resets_performed(&self) -> nat {
        self.reset_count@
    }

    /// The timeout, in milliseconds, the session applies to transfers.
    pub closed spec fn spec_timeout_ms(&self) -> u64 {
        self.default_timeout_ms
    }

    /// The connection the session owns.
    pub closed spec fn spec_handle(&self) -> TransportHandle {
        self.hnd
    }

    /// One synchronous exchange: write `data` in full to the outbound bulk
    /// endpoint, then read one response into `out`, each blocking up to the
    /// session's timeout; the number of bytes read is returned. A short
    /// write fails with `UsbWritePartial`, nothing is retried, and no read
    /// is attempted then, so `out` is untouched on every write-side
    /// failure.
    pub fn cmd(&self, data: &[u8], out: &mut Vec<u8>) -> (r: Result<usize, DriverError>)
        ensures
            final(out)@.len() == old(out)@.len(),
            match r {
                Ok(n) => n <= final(out)@.len(),
                Err(e) => {
                    &&& (e matches DriverError::UsbWrite(_) || e is UsbWritePartial
                        || e matches DriverError::UsbReadResponse(_))
                    &&& ((e matches DriverError::UsbWrite(_) || e is UsbWritePartial)
                        ==> final(out)@ == old(out)@)
                },
            },
    {
        let wrlen = match transport::write_bulk(
            &self.hnd,
            ENDPOINT_OUT,
            data,
            self.default_timeout_ms,
        ) {
            Ok(n) => n,
            Err(e) => {
                return Err(DriverError::UsbWrite(e));
            },
        };
        match require_full_write(wrlen, data.len()) {
            Ok(()) => (),
            Err(e) => {
                return Err(e);
            },
        }
        match transport::read_bulk(&self.hnd, ENDPOINT_IN, out, self.default_timeout_ms) {
            Ok(n) => Ok(n),
            Err(e) => Err(DriverError::UsbReadResponse(e)),
        }
    }

    /// One protocol round: send `cmd_bytes`, read one response into `resp`,
    /// and validate the status code its first two bytes carry.
    pub fn run_and_check(&self, cmd_bytes: &[u8], resp: &mut Vec<u8>) -> (r: Result<
        usize,
        DriverError,
    >)
        ensures
            run_and_check_post(r, old(resp)@, final(resp)@),
    {
        let res = match self.cmd(cmd_bytes, resp) {
            Ok(n) => n,
            Err(e) => {
                return Err(e);
            },
        };
        match check_response(resp, res) {
            Ok(()) => Ok(res),
            Err(e) => {
                proof {
                    assert(spec_check_status(resp@.take(res as int)) == Err::<(), DriverError>(e));
                }
                Err(e)
            },
        }
    }

    /// Send the init sequence: the one-byte command 0x01, then the one-byte
    /// command 0x19, each validated through a shared 1024-byte response
    /// buffer. The first failure is returned at once and the second command
    /// is then never sent; success means both commands reported status
    /// zero.
    pub fn send_init(&self) -> (r: Result<(), DriverError>)
        ensures
            r matches Err(e) ==> init_error(e),
    {
        let mut buf: Vec<u8> = Vec::new();
        let mut i: usize = 0;
        while i < 1024
            invariant
                i <= 1024,
                buf@.len() == i,
            decreases 1024 - i,
        {
            buf.push(0);
            i = i + 1;
        }
        let first: [u8; 1] = [INIT_CMD_FIRST];
        match self.run_and_check(first.as_slice(), &mut buf) {
            Ok(_) => (),
            Err(e) => {
                return Err(e);
            },
        }
        let second: [u8; 1] = [INIT_CMD_SECOND];
        match self.run_and_check(second.as_slice(), &mut buf) {
            Ok(_) => (),
            Err(e) => {
                return Err(e);
            },
        }
        Ok(())
    }

    /// Reset the device. Idempotent by design: once a reset has succeeded,
    /// further calls succeed without touching the transport again; a failed
    /// attempt leaves the flag clear, so the caller may retry.
    pub fn reset(&mut self) -> (r: Result<(), DriverError>)
        ensures
            reset_transition(
                old(self).spec_reset_called(),
                old(self).resets_performed(),
                final(self).spec_reset_called(),
                final(self).resets_performed(),
                r is Ok,
            ),
            r matches Err(e) ==> e matches DriverError::UsbReset(_),
            final(self).spec_timeout_ms() == old(self).spec_timeout_ms(),
            final(self).spec_handle() == old(self).spec_handle(),
    {
        if self.reset_called {
            return Ok(());
        }
        let res = transport::reset_device(&self.hnd);
        self.reset_count = Ghost(self.reset_count@ + 1);
        match res {
            Ok(()) => {
                self.reset_called = true;
                Ok(())
            },
            Err(e) => Err(DriverError::UsbReset(e)),
        }
    }
}

/// The failures the init sequence can surface: a transport failure on
/// write or read, or the device's own verdict, carried exactly as the
/// protocol states it.
pub open spec fn init_error(e: DriverError) -> bool {
    ||| e matches DriverError::UsbWrite(_)
    ||| e is UsbWritePartial
    ||| e matches DriverError::UsbReadResponse(_)
    ||| e is UsbInitInvalid
    ||| e matches DriverError::UsbInitSignatureFailed(c) && c == STATUS_SIGNATURE_FAILED
    ||| e matches DriverError::UsbInitFailed(c) && c != 0 && c != STATUS_SIGNATURE_FAILED
}

} // verus!
