//! Capture devices.
use crate::text::{joined, owned, str_same};
use crate::types::AppError;
use crate::video::format::{PixelFormat, Resolution};
use vstd::prelude::*;

verus! {

/// Where the capture device stands.
pub const AML_DEVICE_PATH: &'static str = "/dev/video_cap";

/// A picture size that a device offers, with its frame rates.
#[derive(Debug, Clone)]
pub struct ResolutionInfo {
    pub width: u32,
    pub height: u32,
    pub fps: Vec<u32>,
}

impl ResolutionInfo {
    /// A picture size with its frame rates.
    pub fn new(width: u32, height: u32, fps: Vec<u32>) -> (r: Self)
        ensures
            r == (ResolutionInfo { width, height, fps }),
    {
        ResolutionInfo { width, height, fps }
    }

    /// The size alone.
    pub fn resolution(&self) -> (r: Resolution)
        ensures
            r == (Resolution { width: self.width, height: self.height }),
    {
        Resolution::new(self.width, self.height)
    }
}

/// A pixel layout that a device offers.
#[derive(Debug, Clone)]
pub struct FormatInfo {
    pub format: PixelFormat,
    pub resolutions: Vec<ResolutionInfo>,
    pub description: String,
}

/// What a device can do.
#[derive(Debug, Clone, Copy, PartialEq, Eq, Structural)]
pub struct DeviceCapabilities {
    pub video_capture: bool,
    pub video_capture_mplane: bool,
    pub video_output: bool,
    pub streaming: bool,
    pub read_write: bool,
}

impl Default for DeviceCapabilities {
    fn default() -> (r: Self)
        ensures
            r == (DeviceCapabilities {
                video_capture: false,
                video_capture_mplane: false,
                video_output: false,
                streaming: false,
                read_write: false,
            }),
    {
        DeviceCapabilities {
            video_capture: false,
            video_capture_mplane: false,
            video_output: false,
            streaming: false,
            read_write: false,
        }
    }
}

/// A capture device.
#[derive(Debug, Clone)]
pub struct VideoDeviceInfo {
    pub path: String,
    pub name: String,
    pub driver: String,
    pub bus_info: String,
    pub card: String,
    pub formats: Vec<FormatInfo>,
    pub capabilities: DeviceCapabilities,
    pub is_capture_card: bool,
    pub priority: u32,
    pub has_signal: bool,
    pub subdev_path: Option<String>,
    pub bridge_kind: Option<String>,
}

/// What a device that was lost is recognised by.
#[derive(Debug, Clone)]
pub struct VideoDeviceRecoveryHint {
    pub path: String,
    pub name: String,
    pub driver: String,
    pub bus_info: String,
    pub card: String,
    pub is_capture_card: bool,
}

impl VideoDeviceRecoveryHint {
    /// What a device is recognised by.
    pub fn of(device: &VideoDeviceInfo) -> (r: Self)
        ensures
            r.path@ == device.path@,
            r.name@ == device.name@,
            r.driver@ == device.driver@,
            r.bus_info@ == device.bus_info@,
            r.card@ == device.card@,
            r.is_capture_card == device.is_capture_card,
    {
        VideoDeviceRecoveryHint {
            path: device.path.clone(),
            name: device.name.clone(),
            driver: device.driver.clone(),
            bus_info: device.bus_info.clone(),
            card: device.card.clone(),
            is_capture_card: device.is_capture_card,
        }
    }
}

/// Whether a description is that of the HDMI input at a path.
pub open spec fn is_aml_device(d: VideoDeviceInfo, path: Seq<char>) -> bool {
    &&& d.path@ == path
    &&& d.name@ == "Amlogic StreamBox Capture"@
    &&& d.driver@ == "aml_vfmcap"@
    &&& d.bus_info@ == "platform:vfmcap"@
    &&& d.card@ == "Amlogic HDMI RX"@
    &&& d.formats@.len() == 1
    &&& d.formats@[0].format == PixelFormat::Nv12
    &&& d.formats@[0].description@ == "AML VFM Capture NV12"@
    &&& d.formats@[0].resolutions@.len() == 2
    &&& d.formats@[0].resolutions@[0].width == 1920
    &&& d.formats@[0].resolutions@[0].height == 1080
    &&& d.formats@[0].resolutions@[0].fps@ == seq![30u32, 60u32]
    &&& d.formats@[0].resolutions@[1].width == 3840
    &&& d.formats@[0].resolutions@[1].height == 2160
    &&& d.formats@[0].resolutions@[1].fps@ == seq![30u32, 60u32, 120u32, 240u32]
    &&& d.capabilities == (DeviceCapabilities {
        video_capture: true,
        video_capture_mplane: false,
        video_output: false,
        streaming: true,
        read_write: false,
    })
    &&& d.is_capture_card
    &&& d.priority == 1000
    &&& d.has_signal
    &&& d.subdev_path is None
    &&& d.bridge_kind is None
}

/// Describes the HDMI input.
pub fn build_aml_video_device_info(path: String) -> (r: VideoDeviceInfo)
    ensures
        is_aml_device(r, path@),
{
    let resolutions = vec![
        ResolutionInfo::new(1920, 1080, vec![30, 60]),
        ResolutionInfo::new(3840, 2160, vec![30, 60, 120, 240]),
    ];
    assert(resolutions@[0].fps@ == seq![30u32, 60u32]);
    assert(resolutions@[1].fps@ == seq![30u32, 60u32, 120u32, 240u32]);
    VideoDeviceInfo {
        path,
        name: owned("Amlogic StreamBox Capture"),
        driver: owned("aml_vfmcap"),
        bus_info: owned("platform:vfmcap"),
        card: owned("Amlogic HDMI RX"),
        formats: vec![
            FormatInfo {
                format: PixelFormat::Nv12,
                resolutions,
                description: owned("AML VFM Capture NV12"),
            },
        ],
        capabilities: DeviceCapabilities {
            video_capture: true,
            video_capture_mplane: false,
            video_output: false,
            streaming: true,
            read_write: false,
        },
        is_capture_card: true,
        priority: 1000,
        has_signal: true,
        subdev_path: None,
        bridge_kind: None,
    }
}

/// Describes the HDMI input, where its device is there.
pub fn aml_video_device_info(path: String, present: bool) -> (r: Result<VideoDeviceInfo, AppError>)
    ensures
        r is Ok <==> present,
        r matches Ok(d) ==> is_aml_device(d, path@),
        r matches Err(e) ==> (e matches AppError::VideoError(m) && m@
            == "AML capture device not found: "@ + path@ ),
{
    if !present {
        return Err(
            AppError::VideoError(joined("AML capture device not found: ", path.as_str())),
        );
    }
    Ok(build_aml_video_device_info(path))
}

/// A device that was opened.
#[derive(Debug)]
pub struct VideoDevice {
    pub path: String,
}

impl VideoDevice {
    /// Opens a device, where it is there.
    pub fn open(path: String, present: bool) -> (r: Result<Self, AppError>)
        ensures
            r is Ok <==> present,
            r matches Ok(d) ==> d.path == path,
            r matches Err(e) ==> (e matches AppError::VideoError(m) && m@
                == "Video device not found: "@ + path@ ),
    {
        Self::open_readonly(path, present)
    }

    /// Opens a device for reading, where it is there.
    pub fn open_readonly(path: String, present: bool) -> (r: Result<Self, AppError>)
        ensures
            r is Ok <==> present,
            r matches Ok(d) ==> d.path == path,
            r matches Err(e) ==> (e matches AppError::VideoError(m) && m@
                == "Video device not found: "@ + path@ ),
    {
        if !present {
            return Err(
                AppError::VideoError(joined("Video device not found: ", path.as_str())),
            );
        }
        Ok(VideoDevice { path })
    }

    /// Describes the device, where it is still there.
    pub fn info(&self, present: bool) -> (r: Result<VideoDeviceInfo, AppError>)
        ensures
            r is Ok <==> present,
            r matches Ok(d) ==> is_aml_device(d, self.path@),
            r matches Err(e) ==> (e matches AppError::VideoError(m) && m@
                == "AML capture device not found: "@ + self.path@ ),
    {
        aml_video_device_info(self.path.clone(), present)
    }
}

/// Lists the devices, given whether the HDMI input's is there.
pub fn enumerate_devices(present: bool) -> (r: Vec<VideoDeviceInfo>)
    ensures
        if present {
            r@.len() == 1 && is_aml_device(r@[0], AML_DEVICE_PATH@)
        } else {
            r@.len() == 0
        },
{
    let mut devices: Vec<VideoDeviceInfo> = Vec::new();
    if present {
        devices.push(build_aml_video_device_info(owned(AML_DEVICE_PATH)));
    }
    devices
}

/// Picks the device to capture from: the first.
pub fn find_best_device(devices: Vec<VideoDeviceInfo>) -> (r: Result<VideoDeviceInfo, AppError>)
    ensures
        r is Ok <==> devices@.len() > 0,
        r matches Ok(d) ==> d == devices@[0],
        r matches Err(e) ==> (e matches AppError::VideoError(m) && m@
            == "No AML capture device available"@),
{
    let mut devices = devices;
    if devices.len() == 0 {
        return Err(AppError::video("No AML capture device available"));
    }
    Ok(devices.remove(0))
}

/// The position of the first device at a path, or the number of devices.
pub open spec fn first_at_path(devices: Seq<VideoDeviceInfo>, path: Seq<char>) -> nat
    decreases devices.len(),
{
    if devices.len() == 0 || devices[0].path@ == path {
        0
    } else {
        1 + first_at_path(devices.skip(1), path)
    }
}

/// The position of the first device of a driver, or the number of devices.
pub open spec fn first_of_driver(devices: Seq<VideoDeviceInfo>, driver: Seq<char>) -> nat
    decreases devices.len(),
{
    if devices.len() == 0 || devices[0].driver@ == driver {
        0
    } else {
        1 + first_of_driver(devices.skip(1), driver)
    }
}

/// Finds the first device at a path.
pub fn position_at_path(devices: &Vec<VideoDeviceInfo>, path: &str) -> (r: usize)
    ensures
        r == first_at_path(devices@, path@),
        r <= devices@.len(),
        r < devices@.len() ==> devices@[r as int].path@ == path@,
{
    let mut i: usize = 0;
    assert(devices@.skip(0) == devices@);
    while i < devices.len()
        invariant
            i <= devices@.len(),
            first_at_path(devices@, path@) == i + first_at_path(devices@.skip(i as int), path@),
        decreases devices.len() - i,
    {
        assert(devices@.skip(i as int)[0] == devices@[i as int]);
        if str_same(devices[i].path.as_str(), path) {
            return i;
        }
        assert(devices@.skip(i as int).skip(1) == devices@.skip(i + 1));
        i = i + 1;
    }
    i
}

/// Finds the first device of a driver.
pub fn position_of_driver(devices: &Vec<VideoDeviceInfo>, driver: &str) -> (r: usize)
    ensures
        r == first_of_driver(devices@, driver@),
        r <= devices@.len(),
        r < devices@.len() ==> devices@[r as int].driver@ == driver@,
{
    let mut i: usize = 0;
    assert(devices@.skip(0) == devices@);
    while i < devices.len()
        invariant
            i <= devices@.len(),
            first_of_driver(devices@, driver@) == i + first_of_driver(
                devices@.skip(i as int),
                driver@,
            ),
        decreases devices.len() - i,
    {
        assert(devices@.skip(i as int)[0] == devices@[i as int]);
        if str_same(devices[i].driver.as_str(), driver) {
            return i;
        }
        assert(devices@.skip(i as int).skip(1) == devices@.skip(i + 1));
        i = i + 1;
    }
    i
}

/// The position of the device that takes the place of a lost one: the first at its path, or
/// else the first of its driver; the number of devices where there is none.
pub open spec fn recovery_position(
    devices: Seq<VideoDeviceInfo>,
    hint: VideoDeviceRecoveryHint,
) -> nat {
    if first_at_path(devices, hint.path@) < devices.len() {
        first_at_path(devices, hint.path@)
    } else {
        first_of_driver(devices, hint.driver@)
    }
}

/// Picks the device that takes the place of a lost one.
pub fn select_recovery_device<'a>(
    devices: &'a Vec<VideoDeviceInfo>,
    hint: &VideoDeviceRecoveryHint,
) -> (r: Option<&'a VideoDeviceInfo>)
    ensures
        match r {
            Some(d) => recovery_position(devices@, *hint) < devices@.len() && *d
                == devices@[recovery_position(devices@, *hint) as int],
            None => recovery_position(devices@, *hint) >= devices@.len(),
        },
{
    let at_path: usize = position_at_path(devices, hint.path.as_str());
    if at_path < devices.len() {
        return Some(&devices[at_path]);
    }
    let of_driver: usize = position_of_driver(devices, hint.driver.as_str());
    if of_driver < devices.len() {
        Some(&devices[of_driver])
    } else {
        None
    }
}

// ---------------------------------------------------------------- laws

pub(crate) proof fn lemma_first_at_path(devices: Seq<VideoDeviceInfo>, path: Seq<char>)
    ensures
        first_at_path(devices, path) <= devices.len(),
        first_at_path(devices, path) < devices.len() ==> devices[first_at_path(
            devices,
            path,
        ) as int].path@ == path,
        forall|j: int| 0 <= j < first_at_path(devices, path) ==> (#[trigger] devices[j]).path@
            != path,
    decreases devices.len(),
{
    if devices.len() > 0 && devices[0].path@ != path {
        let rest = devices.skip(1);
        lemma_first_at_path(rest, path);
        assert forall|j: int| 0 <= j < first_at_path(devices, path) implies (
        #[trigger] devices[j]).path@ != path by {
            if j > 0 {
                assert(rest[j - 1] == devices[j]);
            }
        }
    }
}

proof fn lemma_first_of_driver(devices: Seq<VideoDeviceInfo>, driver: Seq<char>)
    ensures
        first_of_driver(devices, driver) <= devices.len(),
        first_of_driver(devices, driver) < devices.len() ==> devices[first_of_driver(
            devices,
            driver,
        ) as int].driver@ == driver,
        forall|j: int| 0 <= j < first_of_driver(devices, driver) ==> (#[trigger] devices[j]).driver@
            != driver,
    decreases devices.len(),
{
    if devices.len() > 0 && devices[0].driver@ != driver {
        let rest = devices.skip(1);
        lemma_first_of_driver(rest, driver);
        assert forall|j: int| 0 <= j < first_of_driver(devices, driver) implies (
        #[trigger] devices[j]).driver@ != driver by {
            if j > 0 {
                assert(rest[j - 1] == devices[j]);
            }
        }
    }
}

/// A device that was lost is found again at its own path, wherever there is one; otherwise the
/// first device of its driver takes its place, and where there is none nothing does.
pub proof fn a_lost_device_is_found_again(
    devices: Seq<VideoDeviceInfo>,
    hint: VideoDeviceRecoveryHint,
    i: int,
)
    requires
        0 <= i < devices.len(),
    ensures
        ({
            let n = recovery_position(devices, hint) as int;
            &&& devices[i].path@ == hint.path@ ==> n <= i && devices[n].path@ == hint.path@
            &&& devices[i].driver@ == hint.driver@ ==> n < devices.len()
            &&& n < devices.len() ==> devices[n].path@ == hint.path@ || devices[n].driver@
                == hint.driver@
            &&& n < devices.len() && devices[n].path@ != hint.path@ ==> devices[i].path@
                != hint.path@
        }),
{
    lemma_first_at_path(devices, hint.path@);
    lemma_first_of_driver(devices, hint.driver@);
}

/// The HDMI input is described alike wherever it stands: it captures and streams, in NV12 alone,
/// at 1920 by 1080 with 30 and 60 frames and at 3840 by 2160 with up to 240.
pub proof fn the_input_is_described(d: VideoDeviceInfo, path: Seq<char>)
    requires
        is_aml_device(d, path),
    ensures
        d.path@ == path,
        d.name@ == "Amlogic StreamBox Capture"@ && d.driver@ == "aml_vfmcap"@ && d.bus_info@
            == "platform:vfmcap"@ && d.card@ == "Amlogic HDMI RX"@,
        d.formats@.len() == 1 && d.formats@[0].format == PixelFormat::Nv12,
        d.formats@[0].resolutions@.len() == 2,
        d.formats@[0].resolutions@[0].width == 1920 && d.formats@[0].resolutions@[0].height == 1080
            && d.formats@[0].resolutions@[0].fps@ == seq![30u32, 60u32],
        d.formats@[0].resolutions@[1].width == 3840 && d.formats@[0].resolutions@[1].height == 2160
            && d.formats@[0].resolutions@[1].fps@ == seq![30u32, 60u32, 120u32, 240u32],
        d.capabilities.video_capture && d.capabilities.streaming
            && !d.capabilities.video_capture_mplane && !d.capabilities.video_output
            && !d.capabilities.read_write,
        d.is_capture_card && d.has_signal && d.priority == 1000,
{
}

/// The HDMI input stands at its own path.
pub proof fn the_input_has_its_path()
    ensures
        AML_DEVICE_PATH@ == "/dev/video_cap"@,
{
}

} // verus!
