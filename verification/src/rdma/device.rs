//! The verbs device: finding it by name, opening it without leaking what
//! was got on the way, and what its queries and registrations come to.

use crate::error::{RdmaFailure, TransportError};
use crate::transport::MemoryRegion;
use vstd::prelude::*;
use vstd::string::StringExecFns;

verus! {

/// Limits of a device.
#[derive(Debug, Clone, Copy, PartialEq, Eq, Structural)]
pub struct DeviceAttributes {
    pub max_qp: i32,
    pub max_cq: i32,
    pub max_mr: i32,
    pub max_mr_size: u64,
}

/// State and addresses of a port.
#[derive(Debug, Clone, Copy, PartialEq, Eq)]
pub struct PortAttributes {
    pub state: u32,
    pub lid: u16,
    pub gid: [u8; 16],
}

/// A memory region that the device has registered.
#[derive(Debug, Clone, Copy, PartialEq, Eq, Structural)]
pub struct RdmaMemoryRegion {
    pub addr: u64,
    pub length: usize,
    pub lkey: u32,
    pub rkey: u32,
}

impl MemoryRegion for RdmaMemoryRegion {
    open spec fn covers(&self) -> (u64, usize) {
        (self.addr, self.length)
    }

    fn lkey(&self) -> (key: u32)
        ensures
            key == self.lkey,
    {
        self.lkey
    }

    fn rkey(&self) -> (key: u32)
        ensures
            key == self.rkey,
    {
        self.rkey
    }

    fn addr(&self) -> (addr: u64)
        ensures
            addr == self.addr,
    {
        self.addr
    }

    fn length(&self) -> (length: usize)
        ensures
            length == self.length,
    {
        self.length
    }
}

/// What is held of the system while a device is opened.
#[derive(Debug, Clone, Copy, PartialEq, Eq, Structural)]
pub enum DeviceResource {
    DeviceList,
    Context,
    ProtectionDomain,
}

/// Where the opening of a device stands.
#[derive(Debug, Clone, Copy, PartialEq, Eq, Structural)]
pub enum OpenState {
    /// Nothing is held yet.
    Start,
    /// The device list is held; the device that was asked for stands at the
    /// given position in it, or nowhere.
    Listed(Option<usize>),
    /// The device is open and the list still held.
    Opened,
    /// The list is held and is to be freed before the failure is reported.
    Unlisting(RdmaFailure),
    /// The device is open.
    ContextOnly,
    /// The device is open and is to be closed before the failure is
    /// reported.
    Closing(RdmaFailure),
    /// The device is open and has a protection domain.
    Ready,
    /// Opening has failed and nothing is held any more.
    Failed(RdmaFailure),
}

/// What to do next while a device is opened.
#[derive(Debug, Clone, Copy, PartialEq, Eq, Structural)]
pub enum OpenAction {
    /// Get the list of devices and look the name up in it.
    GetDeviceList,
    /// Open the device at this position of the list.
    OpenDevice(usize),
    /// Free the list of devices.
    FreeDeviceList,
    /// Allocate a protection domain.
    AllocPd,
    /// Close the device.
    CloseDevice,
    /// The device is open.
    Finish,
    /// Report the failure.
    GiveUp(RdmaFailure),
}

/// What is held in each state of the opening.
pub open spec fn held_while_opening(state: OpenState) -> Set<DeviceResource> {
    match state {
        OpenState::Start => set![],
        OpenState::Listed(_) => set![DeviceResource::DeviceList],
        OpenState::Opened => set![DeviceResource::DeviceList, DeviceResource::Context],
        OpenState::Unlisting(_) => set![DeviceResource::DeviceList],
        OpenState::ContextOnly => set![DeviceResource::Context],
        OpenState::Closing(_) => set![DeviceResource::Context],
        OpenState::Ready => set![DeviceResource::Context, DeviceResource::ProtectionDomain],
        OpenState::Failed(_) => set![],
    }
}

/// The action that the opening calls for in `state`.
pub open spec fn open_action_in(state: OpenState) -> OpenAction {
    match state {
        OpenState::Start => OpenAction::GetDeviceList,
        OpenState::Listed(Some(position)) => OpenAction::OpenDevice(position),
        OpenState::Listed(None) => OpenAction::FreeDeviceList,
        OpenState::Opened => OpenAction::FreeDeviceList,
        OpenState::Unlisting(_) => OpenAction::FreeDeviceList,
        OpenState::ContextOnly => OpenAction::AllocPd,
        OpenState::Closing(_) => OpenAction::CloseDevice,
        OpenState::Ready => OpenAction::Finish,
        OpenState::Failed(failure) => OpenAction::GiveUp(failure),
    }
}

/// The state after the action of `state` has been carried out; `ok` says
/// whether it succeeded, and `found` where the list holds the device that
/// was asked for (it counts after `GetDeviceList` alone). Freeing and
/// closing always count as done.
pub open spec fn open_state_after(state: OpenState, ok: bool, found: Option<usize>) -> OpenState {
    match state {
        OpenState::Start => if ok {
            OpenState::Listed(found)
        } else {
            OpenState::Failed(RdmaFailure::NoDevices)
        },
        OpenState::Listed(Some(_)) => if ok {
            OpenState::Opened
        } else {
            OpenState::Unlisting(RdmaFailure::OpenFailed)
        },
        OpenState::Listed(None) => OpenState::Failed(RdmaFailure::DeviceNotFound),
        OpenState::Opened => OpenState::ContextOnly,
        OpenState::Unlisting(failure) => OpenState::Failed(failure),
        OpenState::ContextOnly => if ok {
            OpenState::Ready
        } else {
            OpenState::Closing(RdmaFailure::PdAllocFailed)
        },
        OpenState::Closing(failure) => OpenState::Failed(failure),
        OpenState::Ready => OpenState::Ready,
        OpenState::Failed(failure) => OpenState::Failed(failure),
    }
}

/// The number of actions that are left at most until the opening has ended.
pub open spec fn open_steps_left(state: OpenState) -> nat {
    match state {
        OpenState::Start => 6,
        OpenState::Listed(_) => 5,
        OpenState::Opened => 4,
        OpenState::ContextOnly => 3,
        OpenState::Closing(_) => 1,
        OpenState::Unlisting(_) => 1,
        OpenState::Ready => 0,
        OpenState::Failed(_) => 0,
    }
}

/// Whether `i` is the position of the first name in `names` that is
/// `wanted`.
pub open spec fn first_match(names: Seq<String>, wanted: Seq<char>, i: int) -> bool {
    &&& 0 <= i < names.len()
    &&& names[i]@ == wanted
    &&& forall|j: int| 0 <= j < i ==> names[j]@ != wanted
}

/// A device of the system, opened by name.
#[derive(Debug, Clone, PartialEq, Eq)]
pub struct RdmaDevice {
    device_name: String,
}

impl RdmaDevice {
    /// The name of the device.
    pub closed spec fn name_text(&self) -> Seq<char> {
        self.device_name@
    }

    /// The position in `names` of the device called `device_name`: the first
    /// one of that name, or none.
    pub fn find(names: &Vec<String>, device_name: &str) -> (found: Option<usize>)
        ensures
            match found {
                Some(i) => first_match(names@, device_name@, i as int),
                None => forall|j: int| 0 <= j < names@.len() ==> names@[j]@ != device_name@,
            },
    {
        let wanted = String::from_str(device_name);
        let mut i: usize = 0;
        while i < names.len()
            invariant
                i <= names.len(),
                wanted@ == device_name@,
                forall|j: int| 0 <= j < i ==> names@[j]@ != device_name@,
            decreases names.len() - i,
        {
            if names[i] == wanted {
                return Some(i);
            }
            i = i + 1;
        }
        None
    }

    /// The action that opening a device calls for in `state`.
    pub fn open_action(state: OpenState) -> (action: OpenAction)
        ensures
            action == open_action_in(state),
    {
        match state {
            OpenState::Start => OpenAction::GetDeviceList,
            OpenState::Listed(found) => match found {
                Some(position) => OpenAction::OpenDevice(position),
                None => OpenAction::FreeDeviceList,
            },
            OpenState::Opened => OpenAction::FreeDeviceList,
            OpenState::Unlisting(_) => OpenAction::FreeDeviceList,
            OpenState::ContextOnly => OpenAction::AllocPd,
            OpenState::Closing(_) => OpenAction::CloseDevice,
            OpenState::Ready => OpenAction::Finish,
            OpenState::Failed(failure) => OpenAction::GiveUp(failure),
        }
    }

    /// The state of the opening after the action of `state` has been
    /// carried out with the outcome `ok`; `found` is what `find` said of the
    /// list.
    pub fn open_next(state: OpenState, ok: bool, found: Option<usize>) -> (next: OpenState)
        ensures
            next == open_state_after(state, ok, found),
    {
        match state {
            OpenState::Start => if ok {
                OpenState::Listed(found)
            } else {
                OpenState::Failed(RdmaFailure::NoDevices)
            },
            OpenState::Listed(listed) => match listed {
                Some(_) => if ok {
                    OpenState::Opened
                } else {
                    OpenState::Unlisting(RdmaFailure::OpenFailed)
                },
                None => OpenState::Failed(RdmaFailure::DeviceNotFound),
            },
            OpenState::Opened => OpenState::ContextOnly,
            OpenState::Unlisting(failure) => OpenState::Failed(failure),
            OpenState::ContextOnly => if ok {
                OpenState::Ready
            } else {
                OpenState::Closing(RdmaFailure::PdAllocFailed)
            },
            OpenState::Closing(failure) => OpenState::Failed(failure),
            OpenState::Ready => OpenState::Ready,
            OpenState::Failed(failure) => OpenState::Failed(failure),
        }
    }

    /// The device called `device_name`, once its opening has reached
    /// `Ready`; the failure where it has failed.
    pub fn open(device_name: &str, state: OpenState) -> (result: Option<Result<Self, TransportError>>)
        ensures
            match state {
                OpenState::Ready => result matches Some(Ok(device)) && device.name_text()
                    == device_name@,
                OpenState::Failed(failure) => result == Some(
                    Err::<Self, TransportError>(TransportError::RdmaFailed(failure)),
                ),
                _ => result is None,
            },
    {
        match state {
            OpenState::Ready => Some(Ok(RdmaDevice { device_name: String::from_str(device_name) })),
            OpenState::Failed(failure) => Some(Err(TransportError::RdmaFailed(failure))),
            _ => None,
        }
    }

    /// The name of the device.
    pub fn name(&self) -> (name: &str)
        ensures
            name@ == self.name_text(),
    {
        self.device_name.as_str()
    }

    /// The limits of the device, from the status and the values that the
    /// query returned; the status is 0 on success.
    pub fn query_attributes(&self, status: i32, attributes: DeviceAttributes) -> (result: Result<
        DeviceAttributes,
        TransportError,
    >)
        ensures
            status == 0 ==> result == Ok::<DeviceAttributes, TransportError>(attributes),
            status != 0 ==> result == Err::<DeviceAttributes, TransportError>(
                TransportError::RdmaFailed(RdmaFailure::DeviceQueryFailed),
            ),
    {
        if status != 0 {
            Err(TransportError::RdmaFailed(RdmaFailure::DeviceQueryFailed))
        } else {
            Ok(attributes)
        }
    }

    /// The attributes of a port, from the status and the values that the
    /// two queries returned. A failed port query is an error; a failed
    /// query of the global identifier leaves the identifier as it came.
    pub fn query_port(&self, port_status: i32, state: u32, lid: u16, gid: [u8; 16]) -> (result:
        Result<PortAttributes, TransportError>)
        ensures
            port_status == 0 ==> result == Ok::<PortAttributes, TransportError>(
                PortAttributes { state, lid, gid },
            ),
            port_status != 0 ==> result == Err::<PortAttributes, TransportError>(
                TransportError::RdmaFailed(RdmaFailure::PortQueryFailed),
            ),
    {
        if port_status != 0 {
            Err(TransportError::RdmaFailed(RdmaFailure::PortQueryFailed))
        } else {
            Ok(PortAttributes { state, lid, gid })
        }
    }

    /// The region that a registration of `length` bytes at `addr` yielded:
    /// `keys` holds the local and the remote key where the device accepted
    /// the registration.
    pub fn register_memory(&self, addr: u64, length: usize, keys: Option<(u32, u32)>) -> (result:
        Result<RdmaMemoryRegion, TransportError>)
        ensures
            match keys {
                Some((lkey, rkey)) => result == Ok::<RdmaMemoryRegion, TransportError>(
                    RdmaMemoryRegion { addr, length, lkey, rkey },
                ),
                None => result == Err::<RdmaMemoryRegion, TransportError>(
                    TransportError::RdmaFailed(RdmaFailure::RegistrationFailed),
                ),
            },
    {
        match keys {
            Some((lkey, rkey)) => Ok(RdmaMemoryRegion { addr, length, lkey, rkey }),
            None => Err(TransportError::RdmaFailed(RdmaFailure::RegistrationFailed)),
        }
    }
}

/// Opening a device leaks nothing: what is got is held, only what is held
/// is given back, the list of devices is never held at the end, and the
/// opening ends either with the device and its protection domain or with
/// nothing.
pub proof fn lemma_open_keeps_account(state: OpenState, ok: bool, found: Option<usize>)
    ensures
        match open_action_in(state) {
            OpenAction::GetDeviceList => held_while_opening(open_state_after(state, ok, found))
                == if ok {
                held_while_opening(state).insert(DeviceResource::DeviceList)
            } else {
                held_while_opening(state)
            },
            OpenAction::OpenDevice(_) => held_while_opening(open_state_after(state, ok, found))
                == if ok {
                held_while_opening(state).insert(DeviceResource::Context)
            } else {
                held_while_opening(state)
            },
            OpenAction::AllocPd => held_while_opening(open_state_after(state, ok, found)) == if ok {
                held_while_opening(state).insert(DeviceResource::ProtectionDomain)
            } else {
                held_while_opening(state)
            },
            OpenAction::FreeDeviceList => held_while_opening(state).contains(
                DeviceResource::DeviceList,
            ) && held_while_opening(open_state_after(state, ok, found)) == held_while_opening(
                state,
            ).remove(DeviceResource::DeviceList),
            OpenAction::CloseDevice => held_while_opening(state).contains(DeviceResource::Context)
                && held_while_opening(open_state_after(state, ok, found)) == held_while_opening(
                state,
            ).remove(DeviceResource::Context),
            OpenAction::Finish => held_while_opening(state) == set![
                DeviceResource::Context,
                DeviceResource::ProtectionDomain,
            ],
            OpenAction::GiveUp(_) => held_while_opening(state) == Set::<DeviceResource>::empty(),
        },
{
    let next = open_state_after(state, ok, found);
    let held = held_while_opening(state);
    match open_action_in(state) {
        OpenAction::GetDeviceList => {
            assert(held_while_opening(next) =~= if ok {
                held.insert(DeviceResource::DeviceList)
            } else {
                held
            });
        },
        OpenAction::OpenDevice(_) => {
            assert(held_while_opening(next) =~= if ok {
                held.insert(DeviceResource::Context)
            } else {
                held
            });
        },
        OpenAction::AllocPd => {
            assert(held_while_opening(next) =~= if ok {
                held.insert(DeviceResource::ProtectionDomain)
            } else {
                held
            });
        },
        OpenAction::FreeDeviceList => {
            assert(held_while_opening(next) =~= held.remove(DeviceResource::DeviceList));
        },
        OpenAction::CloseDevice => {
            assert(held_while_opening(next) =~= held.remove(DeviceResource::Context));
        },
        OpenAction::Finish => {},
        OpenAction::GiveUp(_) => {
            assert(held =~= Set::<DeviceResource>::empty());
        },
    }
}

/// The order in which what an open device holds is given back.
pub open spec fn close_sequence() -> Seq<DeviceResource> {
    seq![DeviceResource::ProtectionDomain, DeviceResource::Context]
}

/// The order in which what an open device holds is given back when the
/// device is closed: the protection domain first, then the device itself.
pub fn close_order() -> (order: [DeviceResource; 2])
    ensures
        order@ == close_sequence(),
{
    let order = [DeviceResource::ProtectionDomain, DeviceResource::Context];
    assert(order@ =~= close_sequence());
    order
}

/// Opening a device ends: every action but the last brings the end nearer.
pub proof fn lemma_open_ends(state: OpenState, ok: bool, found: Option<usize>)
    ensures
        open_steps_left(state) > 0 ==> open_steps_left(open_state_after(state, ok, found))
            < open_steps_left(state),
        open_steps_left(state) == 0 ==> open_state_after(state, ok, found) == state,
        open_steps_left(state) == 0 <==> (state is Ready || state is Failed),
{
}

} // verus!
