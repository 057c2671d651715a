//! The account of a buffer that is to replace a program: it has to exist, be
//! owned by the version 4 loader and hold a retracted program.

use vstd::prelude::*;
use solana_loader_v4_interface::state::LoaderV4State;

verus! {

/// Byte offset of the deployment status in the state that heads the data of
/// a loader-v4 account: it follows the slot (8 bytes) and an address (32).
pub const STATUS_OFFSET: usize = 40;

/// Size of the state that heads the data of a loader-v4 account; the program
/// itself follows.
pub const PROGRAM_DATA_OFFSET: usize = 48;

/// What an account holds.
#[derive(Clone, Debug, PartialEq, Eq)]
pub struct BufferAccount {
    pub lamports: u64,
    pub data: Vec<u8>,
    pub owner: [u8; 32],
    pub executable: bool,
    pub rent_epoch: u64,
}

/// Why a buffer account was turned down; each carries the buffer's address.
#[derive(Clone, Copy, Debug, PartialEq, Eq)]
pub enum CoreBpfMigrationError {
    AccountNotFound([u8; 32]),
    IncorrectOwner([u8; 32]),
    InvalidBufferAccount([u8; 32]),
}

/// The account details of a buffer account slated to replace a program.
#[derive(Debug)]
pub struct SourceBufferV4 {
    pub buffer_address: [u8; 32],
    pub buffer_account: BufferAccount,
}

/// The address of the version 4 loader, `LoaderV411111111111111111111111111111111111`
/// in base 58.
pub open spec fn loader_v4_address() -> Seq<u8> {
    seq![
        5u8, 18, 180, 17, 81, 81, 227, 122, 173, 10, 139, 197, 211, 136, 46, 123,
        127, 218, 76, 243, 210, 192, 40, 200, 207, 131, 54, 24, 0, 0, 0, 0,
    ]
}

/// Whether account data starts with a complete loader-v4 state whose status
/// word is zero, which is how a retracted program is recorded.
pub open spec fn holds_retracted_program(data: Seq<u8>) -> bool {
    &&& data.len() >= PROGRAM_DATA_OFFSET
    &&& forall|i: int| STATUS_OFFSET <= i < PROGRAM_DATA_OFFSET ==> data[i] == 0
}

/// What `SourceBufferV4::new_checked` returns for a buffer address and the
/// account found there.
pub open spec fn checked(buffer_account: Option<BufferAccount>, buffer_address: [u8; 32]) -> Result<
    SourceBufferV4,
    CoreBpfMigrationError,
> {
    match buffer_account {
        None => Err(CoreBpfMigrationError::AccountNotFound(buffer_address)),
        Some(account) => if account.owner@ != loader_v4_address() {
            Err(CoreBpfMigrationError::IncorrectOwner(buffer_address))
        } else if !holds_retracted_program(account.data@) {
            Err(CoreBpfMigrationError::InvalidBufferAccount(buffer_address))
        } else {
            Ok(SourceBufferV4 { buffer_address, buffer_account: account })
        },
    }
}

/// `solana_sdk_ids::loader_v4::id`: the address of the version 4 loader, here
/// as its 32 bytes. The crate declares the address in base 58; the contract
/// states the bytes that text decodes to.
#[verifier::external_body]
fn loader_v4_id() -> (id: [u8; 32])
    ensures
        id@ == loader_v4_address(),
{
    solana_sdk_ids::loader_v4::id().to_bytes()
}

/// `LoaderV4State::program_data_offset`: the size of the state structure,
/// which is laid out as in C: a 64-bit slot, a 32-byte address and a 64-bit
/// status, 48 bytes in all.
#[verifier::external_body]
fn program_data_offset() -> (offset: usize)
    ensures
        offset == PROGRAM_DATA_OFFSET,
{
    LoaderV4State::program_data_offset()
}

/// Whether two addresses are the same 32 bytes.
fn same_address(a: &[u8; 32], b: &[u8; 32]) -> (same: bool)
    ensures
        same == (a@ == b@),
{
    let mut i: usize = 0;
    while i < 32
        invariant
            i <= 32,
            forall|j: int| 0 <= j < i ==> a@[j] == b@[j],
        decreases 32 - i,
    {
        if a[i] != b[i] {
            return false;
        }
        i += 1;
    }
    assert(a@ =~= b@);
    true
}

/// Whether the status word in the state that heads `data` is zero.
fn status_is_retracted(data: &Vec<u8>) -> (retracted: bool)
    requires
        data.len() >= PROGRAM_DATA_OFFSET,
    ensures
        retracted == holds_retracted_program(data@),
{
    let mut i: usize = STATUS_OFFSET;
    while i < PROGRAM_DATA_OFFSET
        invariant
            STATUS_OFFSET <= i <= PROGRAM_DATA_OFFSET,
            data.len() >= PROGRAM_DATA_OFFSET,
            forall|j: int| STATUS_OFFSET <= j < i ==> data@[j] == 0,
        decreases PROGRAM_DATA_OFFSET - i,
    {
        if data[i] != 0 {
            return false;
        }
        i += 1;
    }
    true
}

impl SourceBufferV4 {
    /// Collects the details of a buffer account and verifies it exists, is
    /// owned by the Loader v4, and has the correct state. `buffer_account` is
    /// what was found at `buffer_address`, if anything.
    pub fn new_checked(buffer_account: Option<BufferAccount>, buffer_address: &[u8; 32]) -> (r:
        Result<Self, CoreBpfMigrationError>)
        ensures
            r == checked(buffer_account, *buffer_address),
    {
        // The buffer account should exist.
        let buffer_account = match buffer_account {
            Some(account) => account,
            None => {
                return Err(CoreBpfMigrationError::AccountNotFound(*buffer_address));
            },
        };

        // The buffer account should be owned by Loader v4.
        let loader = loader_v4_id();
        if !same_address(&buffer_account.owner, &loader) {
            return Err(CoreBpfMigrationError::IncorrectOwner(*buffer_address));
        }

        // The buffer account should have the correct state.
        let buffer_metadata_size = program_data_offset();
        if buffer_account.data.len() >= buffer_metadata_size {
            if status_is_retracted(&buffer_account.data) {
                return Ok(Self { buffer_address: *buffer_address, buffer_account });
            }
        }
        Err(CoreBpfMigrationError::InvalidBufferAccount(*buffer_address))
    }
}

} // verus!
