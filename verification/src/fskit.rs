//! The FSKit adapter: a filesystem core with its mount configuration, the
//! unary extension that loads it as a volume, and the volume's basic file
//! operations. Mounting and the XPC control service exist on macOS only.

use vstd::prelude::*;
use vstd::string::StringSliceAdditionalSpecFns;

use crate::config::FsConfig;
use crate::error::{FsError, FsResult};
use crate::storage::read_count;
use crate::text::{from_utf8_lossy, owned, utf8_lossy};
use crate::types::{HandleId, OpenOptions, OpenOptionsView, PID};
use crate::vfs::FsCore;

verus! {

/// Configuration of the FSKit adapter.
#[derive(Clone, Debug)]
pub struct FsKitConfig {
    /// The filesystem core's configuration.
    pub fs_config: FsConfig,
    /// Where the volume is mounted.
    pub mount_point: String,
    /// Name of the XPC service for control requests.
    pub xpc_service_name: Option<String>,
}

impl FsKitConfig {
    /// An identical configuration.
    pub fn duplicate(&self) -> (r: Self)
        ensures
            r == *self,
    {
        let name = match &self.xpc_service_name {
            Some(n) => Some(n.clone()),
            None => None,
        };
        FsKitConfig { fs_config: self.fs_config.duplicate(), mount_point: self.mount_point.clone(), xpc_service_name: name }
    }
}

/// Why mounting, unmounting and the XPC service fail here.
pub open spec fn macos_only_message() -> Seq<char> {
    "FSKit is only available on macOS"@
}

/// The FSKit adapter: a filesystem core and the configuration it was made with.
pub struct FsKitAdapter {
    core: FsCore,
    config: FsKitConfig,
}

impl FsKitAdapter {
    /// The adapter's filesystem core.
    pub closed spec fn spec_core(self) -> FsCore {
        self.core
    }

    /// The configuration the adapter was made with.
    pub closed spec fn spec_config(self) -> FsKitConfig {
        self.config
    }

    /// Its core is well formed.
    pub open spec fn wf(self) -> bool {
        self.spec_core().wf()
    }

    /// An adapter over a fresh core built from `config.fs_config`.
    pub fn new(config: FsKitConfig) -> (r: Result<Self, FsError>)
        ensures
            r matches Ok(a) && a.spec_core().fresh(config.fs_config) && a.spec_config() == config,
    {
        let core = match FsCore::new(config.fs_config.duplicate()) {
            Ok(c) => c,
            Err(e) => return Err(e),
        };
        Ok(FsKitAdapter { core, config })
    }

    /// The filesystem core.
    pub fn fs_core(&self) -> (c: &FsCore)
        ensures
            *c == self.spec_core(),
    {
        &self.core
    }

    /// The adapter's configuration.
    pub fn config(&self) -> (c: &FsKitConfig)
        ensures
            *c == self.spec_config(),
    {
        &self.config
    }

    /// Mounting needs FSKit, which this platform lacks.
    pub fn mount(&self) -> (r: Result<(), String>)
        ensures
            r matches Err(m) && m@ == macos_only_message(),
    {
        Err(owned("FSKit is only available on macOS"))
    }

    /// Unmounting needs FSKit, which this platform lacks.
    pub fn unmount(&self) -> (r: Result<(), String>)
        ensures
            r matches Err(m) && m@ == macos_only_message(),
    {
        Err(owned("FSKit is only available on macOS"))
    }

    /// The XPC control service needs FSKit, which this platform lacks.
    pub fn start_xpc_service(&self) -> (r: Result<(), String>)
        ensures
            r matches Err(m) && m@ == macos_only_message(),
    {
        Err(owned("FSKit is only available on macOS"))
    }
}

/// A file name as FSKit hands it over.
pub struct FsFileName {
    name: String,
}

impl FsFileName {
    /// The name `s`.
    pub closed spec fn spec_name(self) -> Seq<char> {
        self.name@
    }

    /// The file name `s`.
    pub fn from_string(s: &str) -> (f: Self)
        ensures
            f.spec_name() == s@,
    {
        FsFileName { name: owned(s) }
    }

    /// The name as text.
    pub fn as_str(&self) -> (s: &str)
        ensures
            s@ == self.spec_name(),
    {
        self.name.as_str()
    }
}

/// The identity the volume's file operations act with.
pub open spec fn volume_pid() -> u32 {
    0
}

/// Options of `create_file`: read, write and create.
pub open spec fn create_options() -> OpenOptionsView {
    OpenOptionsView { read: true, write: true, create: true, truncate: false, append: false, share: Seq::empty(), stream: None }
}

/// Options of `write_file`: write, truncating.
pub open spec fn write_options() -> OpenOptionsView {
    OpenOptionsView { read: false, write: true, create: false, truncate: true, append: false, share: Seq::empty(), stream: None }
}

/// Options of `read_file`: read only.
pub open spec fn read_options() -> OpenOptionsView {
    OpenOptionsView { read: true, write: false, create: false, truncate: false, append: false, share: Seq::empty(), stream: None }
}

/// How many bytes `read_file` reads at most.
pub const READ_FILE_LIMIT: usize = 1024;

fn plain_options(read: bool, write: bool, create: bool, truncate: bool) -> (o: OpenOptions)
    ensures
        o@ == (OpenOptionsView { read, write, create, truncate, append: false, share: Seq::empty(), stream: None }),
{
    let o = OpenOptions { read, write, create, truncate, append: false, share: Vec::new(), stream: None };
    assert(o@.share =~= Seq::<crate::types::ShareMode>::empty());
    o
}

/// `new` after creating `p` and closing the handle, from `old`: a failed
/// create leaves the core as it is; a created file's handle is closed.
pub open spec fn created_then_closed(old: FsCore, new: FsCore, p: Seq<char>, r: FsResult<()>) -> bool {
    exists|mid: FsCore, c: FsResult<HandleId>| #[trigger] mid.created(old, volume_pid(), p, create_options(), c) && match c {
        Ok(h) => new.closed(mid, h, r),
        Err(e) => r == Err::<(), FsError>(e) && new == mid,
    }
}

/// `new` after opening `p` for writing, writing `data` at offset 0 and
/// closing the handle, from `old`: a failed open or write stops there (a
/// failed write leaves the handle open).
pub open spec fn written_then_closed(old: FsCore, new: FsCore, p: Seq<char>, data: Seq<u8>, r: FsResult<()>) -> bool {
    exists|mid: FsCore, o: FsResult<HandleId>| #[trigger] mid.opened(old, volume_pid(), p, write_options(), o) && match o {
        Err(e) => r == Err::<(), FsError>(e) && new == mid,
        Ok(h) => exists|mid2: FsCore, w: FsResult<usize>| #[trigger] mid2.written(mid, volume_pid(), h, 0, data, w) && match w {
            Err(e) => r == Err::<(), FsError>(e) && new == mid2,
            Ok(_) => new.closed(mid2, h, r),
        },
    }
}

/// `new` and `r` after opening `p` for reading, reading its first bytes (at
/// most [`READ_FILE_LIMIT`]) and closing the handle, from `old`: the text is
/// those bytes decoded leniently; a failed open or read stops there (a
/// failed read leaves the handle open).
pub open spec fn read_then_closed(old: FsCore, new: FsCore, p: Seq<char>, r: FsResult<String>) -> bool {
    exists|mid: FsCore, o: FsResult<HandleId>| #[trigger] mid.opened(old, volume_pid(), p, read_options(), o) && match o {
        Err(e) => r == Err::<String, FsError>(e) && new == mid,
        Ok(h) => match mid.read_source(h) {
            Err(e) => r == Err::<String, FsError>(e) && new == mid,
            Ok(c) => {
                let data = mid.content(c).unwrap();
                let n = read_count(data, 0, READ_FILE_LIMIT as int);
                exists|x: FsResult<()>| #[trigger] new.closed(mid, h, x) && match x {
                    Err(e) => r == Err::<String, FsError>(e),
                    Ok(()) => r matches Ok(s) && s@ == utf8_lossy(data.subrange(0, n)),
                }
            },
        },
    }
}

/// A loaded volume: the adapter it serves files from.
pub struct FsVolume {
    adapter: FsKitAdapter,
}

impl FsVolume {
    /// The adapter behind the volume.
    pub closed spec fn spec_adapter(self) -> FsKitAdapter {
        self.adapter
    }

    /// Creates file `p` for identity 0 and closes it again.
    pub fn create_file(&mut self, path: &str) -> (r: FsResult<()>)
        requires
            old(self).spec_adapter().wf(),
        ensures
            final(self).spec_adapter().wf(),
            final(self).spec_adapter().spec_config() == old(self).spec_adapter().spec_config(),
            created_then_closed(old(self).spec_adapter().spec_core(), final(self).spec_adapter().spec_core(), path@, r),
    {
        let ghost start = self.adapter.core;
        let pid = PID::new(0);
        let opts = plain_options(true, true, true, false);
        let c = self.adapter.core.create(&pid, path, &opts);
        let ghost mid = self.adapter.core;
        let h = match c {
            Ok(h) => h,
            Err(e) => {
                assert(mid.created(start, volume_pid(), path@, create_options(), c));
                return Err(e);
            },
        };
        let x = self.adapter.core.close(&pid, h);
        assert(mid.created(start, volume_pid(), path@, create_options(), c));
        x
    }

    /// Opens `p` for writing (truncating) as identity 0, writes `data` at
    /// offset 0 and closes it.
    pub fn write_file(&mut self, path: &str, data: &str) -> (r: FsResult<()>)
        requires
            old(self).spec_adapter().wf(),
        ensures
            final(self).spec_adapter().wf(),
            final(self).spec_adapter().spec_config() == old(self).spec_adapter().spec_config(),
            written_then_closed(
                old(self).spec_adapter().spec_core(),
                final(self).spec_adapter().spec_core(),
                path@,
                data.spec_bytes(),
                r,
            ),
    {
        let ghost start = self.adapter.core;
        let pid = PID::new(0);
        let opts = plain_options(false, true, false, true);
        let o = self.adapter.core.open(&pid, path, &opts);
        let ghost mid = self.adapter.core;
        assert(mid.opened(start, volume_pid(), path@, write_options(), o));
        let h = match o {
            Ok(h) => h,
            Err(e) => return Err(e),
        };
        let bytes = data.as_bytes();
        let len: usize = bytes.len();
        assert(0 + bytes@.len() <= usize::MAX) by {
            assert(bytes@.len() == len);
        }
        let w = self.adapter.core.write(&pid, h, 0, bytes);
        let ghost mid2 = self.adapter.core;
        assert(mid2.written(mid, volume_pid(), h, 0, data.spec_bytes(), w));
        match w {
            Ok(_) => {},
            Err(e) => return Err(e),
        }
        self.adapter.core.close(&pid, h)
    }

    /// Opens `p` for reading as identity 0, reads its first bytes (at most
    /// [`READ_FILE_LIMIT`]), closes it and decodes them leniently as UTF-8.
    pub fn read_file(&mut self, path: &str) -> (r: FsResult<String>)
        requires
            old(self).spec_adapter().wf(),
        ensures
            final(self).spec_adapter().wf(),
            final(self).spec_adapter().spec_config() == old(self).spec_adapter().spec_config(),
            read_then_closed(old(self).spec_adapter().spec_core(), final(self).spec_adapter().spec_core(), path@, r),
    {
        let ghost start = self.adapter.core;
        let pid = PID::new(0);
        let opts = plain_options(true, false, false, false);
        let o = self.adapter.core.open(&pid, path, &opts);
        let ghost mid = self.adapter.core;
        assert(mid.opened(start, volume_pid(), path@, read_options(), o));
        let h = match o {
            Ok(h) => h,
            Err(e) => return Err(e),
        };
        let mut buffer = vec![0u8; READ_FILE_LIMIT];
        let n = match self.adapter.core.read(&pid, h, 0, buffer.as_mut_slice()) {
            Ok(n) => n,
            Err(e) => return Err(e),
        };
        let ghost filled = buffer@;
        let x = self.adapter.core.close(&pid, h);
        assert(self.adapter.core.closed(mid, h, x));
        match x {
            Ok(()) => {},
            Err(e) => return Err(e),
        }
        buffer.truncate(n);
        proof {
            let c = mid.read_source(h)->Ok_0;
            let data = mid.content(c).unwrap();
            assert(buffer@ =~= data.subrange(0, n as int));
        }
        Ok(from_utf8_lossy(buffer.as_slice()))
    }
}

/// The FSKit unary file system extension: an adapter, loaded as a volume or
/// not. While loaded the volume holds the adapter; the core keeps its state
/// across unloading and loading again.
pub struct AgentFsUnaryExtension {
    idle: Option<FsKitAdapter>,
    volume: Option<FsVolume>,
}

impl AgentFsUnaryExtension {
    /// Exactly one of the two places holds the adapter, and its core is well formed.
    pub closed spec fn wf(self) -> bool {
        &&& (self.idle is Some) != (self.volume is Some)
        &&& self.adapter().wf()
    }

    /// The extension's adapter.
    pub closed spec fn adapter(self) -> FsKitAdapter {
        match self.volume {
            Some(v) => v.adapter,
            None => self.idle.unwrap(),
        }
    }

    /// Whether a volume is loaded.
    pub closed spec fn loaded(self) -> bool {
        self.volume is Some
    }

    /// An extension over a new adapter for `config`, with no volume loaded.
    pub fn new(config: FsKitConfig) -> (r: Result<Self, FsError>)
        ensures
            r matches Ok(x) && x.wf() && !x.loaded() && x.adapter().spec_core().fresh(config.fs_config)
                && x.adapter().spec_config() == config,
    {
        let adapter = match FsKitAdapter::new(config) {
            Ok(a) => a,
            Err(e) => return Err(e),
        };
        Ok(AgentFsUnaryExtension { idle: Some(adapter), volume: None })
    }

    /// Loads the volume (a loaded volume stays as it is).
    pub fn load_resource(&mut self) -> (r: Result<(), String>)
        requires
            old(self).wf(),
        ensures
            r is Ok,
            final(self).wf(),
            final(self).loaded(),
            final(self).adapter() == old(self).adapter(),
    {
        match self.idle.take() {
            Some(adapter) => {
                self.volume = Some(FsVolume { adapter });
            },
            None => {},
        }
        Ok(())
    }

    /// Unloads the volume (an unloaded one stays unloaded).
    pub fn unload_resource(&mut self) -> (r: Result<(), String>)
        requires
            old(self).wf(),
        ensures
            r is Ok,
            final(self).wf(),
            !final(self).loaded(),
            final(self).adapter() == old(self).adapter(),
    {
        match self.volume.take() {
            Some(v) => {
                self.idle = Some(v.adapter);
            },
            None => {},
        }
        Ok(())
    }

    /// The loaded volume, if any.
    pub fn volume(&self) -> (v: Option<&FsVolume>)
        requires
            self.wf(),
        ensures
            v is Some <==> self.loaded(),
            v matches Some(vol) ==> vol.spec_adapter() == self.adapter(),
    {
        match &self.volume {
            Some(v) => Some(v),
            None => None,
        }
    }

    /// The loaded volume, to work on.
    pub fn volume_mut(&mut self) -> (v: &mut FsVolume)
        requires
            old(self).wf(),
            old(self).loaded(),
        ensures
            v.spec_adapter() == old(self).adapter(),
            final(v).spec_adapter().wf() ==> final(self).wf(),
            final(self).loaded(),
            final(self).adapter() == final(v).spec_adapter(),
    {
        self.volume.as_mut().unwrap()
    }
}

/// The XPC control service; on this platform it cannot start.
pub struct XpcControlService;

impl XpcControlService {
    /// A service for `adapter` under `service_name`.
    pub fn new(adapter: &FsKitAdapter, service_name: String) -> (s: Self) {
        XpcControlService
    }

    /// Starting needs XPC, which this platform lacks.
    pub fn start(&self) -> (r: Result<(), String>)
        ensures
            r matches Err(m) && m@ == "XPC is only available on macOS"@,
    {
        Err(owned("XPC is only available on macOS"))
    }
}

} // verus!
