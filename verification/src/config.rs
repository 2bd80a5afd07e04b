//! The primary configuration: audio interfaces and data directories.

use crate::table::{collect_keys, entry_keys, find_entry, find_pair};
use vstd::prelude::*;

verus! {

/// One named audio interface: a free-form driver family tag and, optionally,
/// the service-manager unit that activates it.  An absent unit means the
/// interface requires no service-manager action.
#[derive(Debug)]
pub struct AudioInterface {
    /// The type of the interface (a driver family tag such as `"jack"`).
    pub interface_type: String,
    /// The service-manager unit that backs this interface, if any.
    pub unit: Option<String>,
}

/// The audio section: the default interface name and the table of interfaces.
///
/// `default_interface` may legitimately name no entry of `interfaces`: the
/// configuration is not cross-checked at load time, and the lookup then
/// reports "not found".
#[derive(Debug)]
pub struct AudioConfig {
    /// The name of the interface used when none is chosen explicitly.
    pub default_interface: String,
    /// The interfaces by name, each name keying one interface.
    pub interfaces: Vec<(String, AudioInterface)>,
}

/// The data section: the three directory paths the application works in.
#[derive(Debug)]
pub struct DataConfig {
    /// Where shape images are stored.
    pub images_dir: String,
    /// Where setup descriptor files are stored.
    pub setups_dir: String,
    /// Where runtime data is stored.
    pub data_dir: String,
}

/// The root of the primary configuration.
#[derive(Debug)]
pub struct Config {
    /// The audio section.
    pub audio: AudioConfig,
    /// The data section.
    pub data: DataConfig,
}

/// The mathematical image of an `AudioInterface`.
pub struct AudioInterfaceView {
    pub interface_type: Seq<char>,
    pub unit: Option<Seq<char>>,
}

/// The mathematical image of an `AudioConfig`.
pub struct AudioConfigView {
    pub default_interface: Seq<char>,
    pub interfaces: Seq<(Seq<char>, AudioInterfaceView)>,
}

/// The mathematical image of a `DataConfig`.
pub struct DataConfigView {
    pub images_dir: Seq<char>,
    pub setups_dir: Seq<char>,
    pub data_dir: Seq<char>,
}

/// The mathematical image of a `Config`.
pub struct ConfigView {
    pub audio: AudioConfigView,
    pub data: DataConfigView,
}

impl View for AudioInterface {
    type V = AudioInterfaceView;

    open spec fn view(&self) -> AudioInterfaceView {
        AudioInterfaceView { interface_type: self.interface_type@, unit: self.unit.deep_view() }
    }
}

impl DeepView for AudioInterface {
    type V = AudioInterfaceView;

    open spec fn deep_view(&self) -> AudioInterfaceView {
        self.view()
    }
}

impl View for AudioConfig {
    type V = AudioConfigView;

    open spec fn view(&self) -> AudioConfigView {
        AudioConfigView {
            default_interface: self.default_interface@,
            interfaces: self.interfaces.deep_view(),
        }
    }
}

impl DeepView for AudioConfig {
    type V = AudioConfigView;

    open spec fn deep_view(&self) -> AudioConfigView {
        self.view()
    }
}

impl View for DataConfig {
    type V = DataConfigView;

    open spec fn view(&self) -> DataConfigView {
        DataConfigView {
            images_dir: self.images_dir@,
            setups_dir: self.setups_dir@,
            data_dir: self.data_dir@,
        }
    }
}

impl DeepView for DataConfig {
    type V = DataConfigView;

    open spec fn deep_view(&self) -> DataConfigView {
        self.view()
    }
}

impl View for Config {
    type V = ConfigView;

    open spec fn view(&self) -> ConfigView {
        ConfigView { audio: self.audio@, data: self.data@ }
    }
}

impl DeepView for Config {
    type V = ConfigView;

    open spec fn deep_view(&self) -> ConfigView {
        self.view()
    }
}

impl Config {
    /// The interface named by `audio.default_interface`, or `None` when the
    /// default name indexes no entry.
    pub fn get_default_audio_interface(&self) -> (r: Option<&AudioInterface>)
        ensures
            r.deep_view() == find_entry(self@.audio.interfaces, self@.audio.default_interface),
    {
        find_pair(&self.audio.interfaces, self.audio.default_interface.as_str())
    }

    /// The interface stored under `name`, or `None` when there is none.
    pub fn get_audio_interface(&self, name: &str) -> (r: Option<&AudioInterface>)
        ensures
            r.deep_view() == find_entry(self@.audio.interfaces, name@),
    {
        find_pair(&self.audio.interfaces, name)
    }

    /// Every configured interface name, in table order.
    pub fn list_audio_interfaces(&self) -> (r: Vec<&String>)
        ensures
            r.deep_view() == entry_keys(self@.audio.interfaces),
    {
        collect_keys(&self.audio.interfaces)
    }

    /// The directory where shape images are stored.
    pub fn get_images_dir(&self) -> (r: &String)
        ensures
            r@ == self@.data.images_dir,
    {
        &self.data.images_dir
    }

    /// The directory where setup descriptor files are stored.
    pub fn get_setups_dir(&self) -> (r: &String)
        ensures
            r@ == self@.data.setups_dir,
    {
        &self.data.setups_dir
    }

    /// The directory where runtime data is stored.
    pub fn get_data_dir(&self) -> (r: &String)
        ensures
            r@ == self@.data.data_dir,
    {
        &self.data.data_dir
    }

    /// All three data directories at once: images, setups, data.
    pub fn get_data_dirs(&self) -> (r: (&String, &String, &String))
        ensures
            r.0@ == self@.data.images_dir,
            r.1@ == self@.data.setups_dir,
            r.2@ == self@.data.data_dir,
    {
        (&self.data.images_dir, &self.data.setups_dir, &self.data.data_dir)
    }
}

} // verus!
