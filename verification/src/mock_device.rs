use vstd::prelude::*;
use crate::device::Device;
use crate::device::DeviceError;
use crate::device::DeviceInfo;
use crate::device::DeviceInfoView;
use crate::device::read_prefix;

verus! {

/// The test backend of the device capability set: a fully deterministic
/// in-memory device. It reports a fixed descriptor, yields fixed token
/// content, and hands out queued command strings, newest first. With
/// `fail_io` set, every channel operation fails with `DeviceError::Io`,
/// which lets callers exercise their failure paths.
pub struct MockDevice {
    info: DeviceInfo,
    key_data: Vec<u8>,
    command_queue: Vec<String>,
    failing: bool,
}

impl MockDevice {
    /// The commands currently queued, oldest first; a wait pops the last.
    pub closed spec fn pending(&self) -> Seq<Seq<char>> {
        self.command_queue@.map_values(|c: String| c@)
    }

    /// Whether every channel operation is made to fail.
    pub closed spec fn is_failing(&self) -> bool {
        self.failing
    }

    pub fn new(info: DeviceInfo, key_data: Vec<u8>) -> (r: Self)
        ensures
            r.descriptor() == info@,
            r.content() == key_data@,
            r.pending() == Seq::<Seq<char>>::empty(),
            !r.is_failing(),
    {
        let r = Self { info, key_data, command_queue: Vec::new(), failing: false };
        proof {
            assert(r.pending() =~= Seq::<Seq<char>>::empty());
        }
        r
    }

    /// Queue a command for a later wait to pick up.
    pub fn add_command(&mut self, command: String)
        ensures
            final(self).descriptor() == old(self).descriptor(),
            final(self).content() == old(self).content(),
            final(self).is_failing() == old(self).is_failing(),
            final(self).pending() == old(self).pending().push(command@),
    {
        self.command_queue.push(command);
        proof {
            assert(self.pending() =~= old(self).pending().push(command@));
        }
    }

    /// Make every subsequent channel operation fail with `DeviceError::Io`.
    pub fn fail_io(&mut self)
        ensures
            final(self).descriptor() == old(self).descriptor(),
            final(self).content() == old(self).content(),
            final(self).pending() == old(self).pending(),
            final(self).is_failing(),
    {
        self.failing = true;
    }
}

impl Device for MockDevice {
    closed spec fn descriptor(&self) -> DeviceInfoView {
        self.info@
    }

    closed spec fn content(&self) -> Seq<u8> {
        self.key_data@
    }

    fn connect(&mut self) -> (r: Result<(), DeviceError>)
        ensures
            *final(self) == *old(self),
            r matches Ok(()) <==> !old(self).is_failing(),
            old(self).is_failing() ==> r == Err::<(), DeviceError>(DeviceError::Io),
    {
        if self.failing {
            Err(DeviceError::Io)
        } else {
            Ok(())
        }
    }

    fn disconnect(&mut self) -> (r: Result<(), DeviceError>)
        ensures
            *final(self) == *old(self),
            r matches Ok(()) <==> !old(self).is_failing(),
            old(self).is_failing() ==> r == Err::<(), DeviceError>(DeviceError::Io),
    {
        if self.failing {
            Err(DeviceError::Io)
        } else {
            Ok(())
        }
    }

    fn read(&self, size: usize) -> (r: Result<Vec<u8>, DeviceError>)
        ensures
            r is Ok <==> !self.is_failing(),
            self.is_failing() ==> r == Err::<Vec<u8>, DeviceError>(DeviceError::Io),
    {
        if self.failing {
            return Err(DeviceError::Io);
        }
        let n = if self.key_data.len() < size {
            self.key_data.len()
        } else {
            size
        };
        let mut data: Vec<u8> = Vec::new();
        let mut i: usize = 0;
        while i < n
            invariant
                i <= n,
                n == if self.key_data@.len() < size as int {
                    self.key_data@.len() as int
                } else {
                    size as int
                },
                data@ == self.key_data@.take(i as int),
            decreases n - i,
        {
            data.push(self.key_data[i]);
            proof {
                assert(self.key_data@.take(i + 1) =~= self.key_data@.take(i as int).push(
                    self.key_data@[i as int],
                ));
            }
            i = i + 1;
        }
        proof {
            if self.key_data@.len() <= size as int {
                assert(self.key_data@.take(self.key_data@.len() as int) =~= self.key_data@);
            }
        }
        Ok(data)
    }

    fn write(&self, data: &[u8]) -> (r: Result<(), DeviceError>)
        ensures
            r matches Ok(()) <==> !self.is_failing(),
            self.is_failing() ==> r == Err::<(), DeviceError>(DeviceError::Io),
    {
        if self.failing {
            Err(DeviceError::Io)
        } else {
            Ok(())
        }
    }

    fn get_info(&self) -> (r: Result<DeviceInfo, DeviceError>)
        ensures
            r is Ok <==> !self.is_failing(),
            self.is_failing() ==> r == Err::<DeviceInfo, DeviceError>(DeviceError::Io),
    {
        if self.failing {
            return Err(DeviceError::Io);
        }
        Ok(
            DeviceInfo {
                name: self.info.name.clone(),
                id: self.info.id.clone(),
                device_type: self.info.device_type,
            },
        )
    }

    /// A wait consumes the most recently queued command; with nothing
    /// queued, it reports `Timeout` whatever the bound was.
    fn wait_for_command(&mut self, timeout_ms: u64) -> (r: Result<String, DeviceError>)
        ensures
            final(self).is_failing() == old(self).is_failing(),
            old(self).is_failing() ==> *final(self) == *old(self) && r == Err::<
                String,
                DeviceError,
            >(DeviceError::Io),
            !old(self).is_failing() && old(self).pending().len() > 0 ==> (r matches Ok(c)
                && c@ == old(self).pending().last() && final(self).pending() == old(
                self,
            ).pending().drop_last()),
            !old(self).is_failing() && old(self).pending().len() == 0 ==> (r matches Err(e)
                && e == DeviceError::Timeout && final(self).pending() == old(self).pending()),
    {
        if self.failing {
            return Err(DeviceError::Io);
        }
        match self.command_queue.pop() {
            Some(c) => {
                proof {
                    assert(self.pending() =~= old(self).pending().drop_last());
                }
                Ok(c)
            },
            None => {
                proof {
                    assert(self.pending() =~= old(self).pending());
                }
                Err(DeviceError::Timeout)
            },
        }
    }
}

} // verus!
