//! Choice of the graphics device, its queue family, and the swapchain's image format.

use vstd::prelude::*;
use crate::error::LibError;

verus! {

/// Whether position `i` holds the first smallest key among the present ones.
pub open spec fn is_first_min(keys: Seq<Option<u32>>, i: int) -> bool {
    &&& 0 <= i < keys.len()
    &&& keys[i] is Some
    &&& forall|j: int| 0 <= j < keys.len() && (#[trigger] keys[j]) is Some ==> keys[i]->0 <= keys[j]->0
    &&& forall|j: int| 0 <= j < i && (#[trigger] keys[j]) is Some ==> keys[i]->0 < keys[j]->0
}

/// The position of the first smallest present key, or `None` when no key is present.
pub fn first_min_index(keys: &Vec<Option<u32>>) -> (r: Option<usize>)
    ensures
        match r {
            Some(i) => is_first_min(keys@, i as int),
            None => forall|j: int| 0 <= j < keys@.len() ==> (#[trigger] keys@[j]) is None,
        },
{
    let mut best: Option<usize> = None;
    let n = keys.len();
    for i in 0..n
        invariant
            n == keys@.len(),
            match best {
                Some(b) => is_first_min(keys@.take(i as int), b as int),
                None => forall|j: int| 0 <= j < i ==> (#[trigger] keys@[j]) is None,
            },
    {
        let k = keys[i];
        proof {
            assert(keys@.take(i + 1) =~= keys@.take(i as int).push(k));
        }
        match k {
            None => {},
            Some(v) => {
                match best {
                    None => {
                        best = Some(i);
                    },
                    Some(b) => {
                        let cur = keys[b];
                        proof {
                            assert(keys@.take(i as int)[b as int] == keys@[b as int]);
                        }
                        match cur {
                            Some(bv) => {
                                if v < bv {
                                    best = Some(i);
                                }
                            },
                            None => {},
                        }
                    },
                }
            },
        }
        proof {
            match best {
                Some(b) => {
                    let t = keys@.take(i + 1);
                    assert forall|j: int| 0 <= j < t.len() && (#[trigger] t[j]) is Some implies t[b as int]->0 <= t[j]->0 by {
                        if j < i {
                            assert(t[j] == keys@.take(i as int)[j]);
                        }
                    }
                    assert forall|j: int| 0 <= j < b && (#[trigger] t[j]) is Some implies t[b as int]->0 < t[j]->0 by {
                        if b < i {
                            assert(t[j] == keys@.take(i as int)[j]);
                        }
                    }
                },
                None => {},
            }
        }
    }
    proof {
        assert(keys@.take(n as int) =~= keys@);
    }
    best
}

/// The kind of a physical graphics device.
#[derive(Debug, Clone, Copy, PartialEq, Eq, Structural)]
pub enum PhysicalDeviceKind {
    DiscreteGpu,
    IntegratedGpu,
    VirtualGpu,
    Cpu,
    Other,
}

/// The preference of a device kind: lower is better.
pub open spec fn device_rank(kind: PhysicalDeviceKind) -> u32 {
    match kind {
        PhysicalDeviceKind::DiscreteGpu => 0,
        PhysicalDeviceKind::IntegratedGpu => 1,
        PhysicalDeviceKind::VirtualGpu => 2,
        PhysicalDeviceKind::Cpu => 3,
        PhysicalDeviceKind::Other => 4,
    }
}

/// What the selection needs to know of a queue family.
#[derive(Debug, Clone, Copy)]
pub struct QueueFamilyCandidate {
    /// Whether the family supports the required queue flags.
    pub has_required_flags: bool,
    /// Whether the family can present to the surface.
    pub surface_supported: bool,
}

/// What the selection needs to know of a physical device.
#[derive(Debug)]
pub struct DeviceCandidate {
    /// Whether the device supports the required extensions.
    pub supports_extensions: bool,
    pub kind: PhysicalDeviceKind,
    pub queue_families: Vec<QueueFamilyCandidate>,
}

/// Whether a queue family can serve: it has the required flags and can present.
pub open spec fn queue_suitable(q: QueueFamilyCandidate) -> bool {
    q.has_required_flags && q.surface_supported
}

/// The first queue family, from position `from` on, that can serve.
pub open spec fn first_suitable_queue(qs: Seq<QueueFamilyCandidate>, from: int) -> Option<int>
    decreases qs.len() - from,
{
    if from < 0 || from >= qs.len() {
        None
    } else if queue_suitable(qs[from]) {
        Some(from)
    } else {
        first_suitable_queue(qs, from + 1)
    }
}

/// The queue family a device would be used with, if it can be used at all.
pub open spec fn device_queue(d: DeviceCandidate) -> Option<int> {
    if d.supports_extensions {
        first_suitable_queue(d.queue_families@, 0)
    } else {
        None
    }
}

/// The key a device is ranked by: its kind's preference, when it can be used.
pub open spec fn device_key(d: DeviceCandidate) -> Option<u32> {
    match device_queue(d) {
        Some(_) => Some(device_rank(d.kind)),
        None => None,
    }
}

/// A found queue family can serve, and every family before it cannot.
pub proof fn lemma_first_suitable_queue(qs: Seq<QueueFamilyCandidate>, from: int)
    requires
        0 <= from,
    ensures
        first_suitable_queue(qs, from) matches Some(i) ==> from <= i < qs.len() && queue_suitable(
            qs[i],
        ),
    decreases qs.len() - from,
{
    if from < qs.len() && !queue_suitable(qs[from]) {
        lemma_first_suitable_queue(qs, from + 1);
    }
}

/// The first queue family of a device that can serve.
fn find_queue(qs: &Vec<QueueFamilyCandidate>) -> (r: Option<usize>)
    ensures
        match r {
            Some(i) => first_suitable_queue(qs@, 0) == Some(i as int),
            None => first_suitable_queue(qs@, 0) is None,
        },
{
    let n = qs.len();
    let mut i: usize = 0;
    while i < n
        invariant
            n == qs@.len(),
            i <= n,
            first_suitable_queue(qs@, 0) == first_suitable_queue(qs@, i as int),
        decreases n - i,
    {
        let q = qs[i];
        if q.has_required_flags && q.surface_supported {
            return Some(i);
        }
        i = i + 1;
    }
    None
}

/// Among the usable devices, a discrete GPU is preferred to an integrated GPU, which is
/// preferred to a virtual GPU, then a CPU, then any other device; and the chosen device is the
/// first usable one of its kind.
pub open spec fn device_preferred(devices: Seq<DeviceCandidate>, i: int) -> bool {
    &&& 0 <= i < devices.len()
    &&& device_queue(devices[i]) is Some
    &&& forall|j: int|
        0 <= j < devices.len() && #[trigger] device_queue(devices[j]) is Some ==> {
            &&& devices[j].kind == PhysicalDeviceKind::DiscreteGpu ==> devices[i].kind
                == PhysicalDeviceKind::DiscreteGpu
            &&& devices[j].kind == PhysicalDeviceKind::IntegratedGpu ==> (devices[i].kind
                == PhysicalDeviceKind::DiscreteGpu || devices[i].kind
                == PhysicalDeviceKind::IntegratedGpu)
            &&& devices[j].kind == PhysicalDeviceKind::VirtualGpu ==> (devices[i].kind
                != PhysicalDeviceKind::Cpu && devices[i].kind != PhysicalDeviceKind::Other)
            &&& devices[j].kind == PhysicalDeviceKind::Cpu ==> devices[i].kind
                != PhysicalDeviceKind::Other
            &&& j < i ==> devices[j].kind != devices[i].kind
        }
}

/// The device that ranks first is the preferred one: a usable discrete GPU beats an
/// integrated GPU, which beats a virtual GPU, then a CPU, then any other device, and among
/// devices of one kind the first usable one is taken.
pub proof fn law_device_kind_preference(devices: Seq<DeviceCandidate>, i: int)
    requires
        is_first_min(devices.map_values(|d: DeviceCandidate| device_key(d)), i),
    ensures
        device_preferred(devices, i),
{
    let keys = devices.map_values(|d: DeviceCandidate| device_key(d));
    assert(keys[i] == device_key(devices[i]));
    assert forall|j: int| 0 <= j < devices.len() && #[trigger] device_queue(devices[j]) is Some implies {
        &&& devices[j].kind == PhysicalDeviceKind::DiscreteGpu ==> devices[i].kind
            == PhysicalDeviceKind::DiscreteGpu
        &&& devices[j].kind == PhysicalDeviceKind::IntegratedGpu ==> (devices[i].kind
            == PhysicalDeviceKind::DiscreteGpu || devices[i].kind
            == PhysicalDeviceKind::IntegratedGpu)
        &&& devices[j].kind == PhysicalDeviceKind::VirtualGpu ==> (devices[i].kind
            != PhysicalDeviceKind::Cpu && devices[i].kind != PhysicalDeviceKind::Other)
        &&& devices[j].kind == PhysicalDeviceKind::Cpu ==> devices[i].kind
            != PhysicalDeviceKind::Other
        &&& j < i ==> devices[j].kind != devices[i].kind
    } by {
        assert(keys[j] == device_key(devices[j]));
    }
}

/// The device to use and its queue family: among the devices that support the extensions and
/// have a family that has the required flags and can present, the first of the most preferred
/// kind (discrete, integrated, virtual, CPU, other), with its first such family.
pub fn select_best_device(devices: &Vec<DeviceCandidate>) -> (r: Result<(usize, u32), LibError>)
    ensures
        match r {
            Ok((i, q)) => {
                &&& is_first_min(devices@.map_values(|d: DeviceCandidate| device_key(d)), i as int)
                &&& device_preferred(devices@, i as int)
                &&& device_queue(devices@[i as int]) matches Some(fq) && q == fq as u32
            },
            Err(e) => {
                &&& e is NoSuitablePhysicalDevice
                &&& forall|j: int| 0 <= j < devices@.len() ==> device_queue(#[trigger] devices@[j]) is None
            },
        },
{
    let ghost keys_spec = devices@.map_values(|d: DeviceCandidate| device_key(d));
    let mut keys: Vec<Option<u32>> = Vec::new();
    let mut queues: Vec<usize> = Vec::new();
    let n = devices.len();
    for i in 0..n
        invariant
            n == devices@.len(),
            keys_spec == devices@.map_values(|d: DeviceCandidate| device_key(d)),
            keys@.len() == i,
            queues@.len() == i,
            forall|j: int| 0 <= j < i ==> (#[trigger] keys@[j]) == keys_spec[j],
            forall|j: int|
                0 <= j < i && (#[trigger] device_queue(devices@[j])) is Some ==> device_queue(
                    devices@[j],
                ) == Some(queues@[j] as int),
    {
        let d = &devices[i];
        let found = if d.supports_extensions {
            find_queue(&d.queue_families)
        } else {
            None
        };
        let rank: u32 = match d.kind {
            PhysicalDeviceKind::DiscreteGpu => 0,
            PhysicalDeviceKind::IntegratedGpu => 1,
            PhysicalDeviceKind::VirtualGpu => 2,
            PhysicalDeviceKind::Cpu => 3,
            PhysicalDeviceKind::Other => 4,
        };
        match found {
            Some(q) => {
                keys.push(Some(rank));
                queues.push(q);
            },
            None => {
                keys.push(None);
                queues.push(0);
            },
        }
    }
    proof {
        assert(keys@ =~= keys_spec);
    }
    match first_min_index(&keys) {
        Some(i) => {
            proof {
                law_device_kind_preference(devices@, i as int);
            }
            let q = queues[i];
            Ok((i, q as u32))
        },
        None => {
            proof {
                assert forall|j: int| 0 <= j < devices@.len() implies device_queue(
                    #[trigger] devices@[j],
                ) is None by {
                    assert(keys_spec[j] is None);
                }
            }
            Err(LibError::NoSuitablePhysicalDevice)
        },
    }
}

/// The positions of the devices that support the required extensions, in order.
pub fn get_all_suitable_devices(devices: &Vec<DeviceCandidate>) -> (r: Vec<usize>)
    ensures
        r@ == Seq::new(devices@.len(), |i: int| i).filter(|i: int| devices@[i].supports_extensions).map_values(|i: int| i as usize),
{
    let ghost all = Seq::new(devices@.len(), |i: int| i);
    let ghost pred = |i: int| devices@[i].supports_extensions;
    let mut r: Vec<usize> = Vec::new();
    let n = devices.len();
    for i in 0..n
        invariant
            n == devices@.len(),
            all == Seq::new(devices@.len(), |i: int| i),
            pred == (|i: int| devices@[i].supports_extensions),
            r@ == all.take(i as int).filter(pred).map_values(|i: int| i as usize),
    {
        proof {
            assert(all.take(i + 1) =~= all.take(i as int).push(i as int));
            reveal_with_fuel(Seq::filter, 1);
            assert(all.take(i + 1).drop_last() =~= all.take(i as int));
        }
        if devices[i].supports_extensions {
            r.push(i);
            proof {
                assert(r@ =~= all.take(i + 1).filter(pred).map_values(|i: int| i as usize));
            }
        } else {
            proof {
                assert(r@ =~= all.take(i + 1).filter(pred).map_values(|i: int| i as usize));
            }
        }
    }
    proof {
        assert(all.take(n as int) =~= all);
    }
    r
}

/// Image formats the swapchain prefers, and all others.
#[derive(Debug, Clone, Copy, PartialEq, Eq, Structural)]
pub enum SurfaceFormatKind {
    B8G8R8A8Unorm,
    R8G8B8A8Unorm,
    B8G8R8A8Srgb,
    R8G8B8A8Srgb,
    Other,
}

/// The preference of an image format: lower is better.
pub open spec fn format_rank(kind: SurfaceFormatKind) -> u32 {
    match kind {
        SurfaceFormatKind::B8G8R8A8Unorm => 0,
        SurfaceFormatKind::R8G8B8A8Unorm => 1,
        SurfaceFormatKind::B8G8R8A8Srgb => 2,
        SurfaceFormatKind::R8G8B8A8Srgb => 3,
        SurfaceFormatKind::Other => 4,
    }
}

/// What the selection needs to know of a format the surface supports.
#[derive(Debug, Clone, Copy)]
pub struct SurfaceFormatCandidate {
    pub format: SurfaceFormatKind,
    /// Whether the format's colour space is non-linear sRGB.
    pub srgb_nonlinear: bool,
}

/// The key a surface format is ranked by, when its colour space is non-linear sRGB.
pub open spec fn surface_format_key(f: SurfaceFormatCandidate) -> Option<u32> {
    if f.srgb_nonlinear {
        Some(format_rank(f.format))
    } else {
        None
    }
}

/// Among the formats in non-linear sRGB colour space, BGRA8 unorm is preferred to RGBA8 unorm,
/// which is preferred to BGRA8 sRGB, then RGBA8 sRGB, then any other format; and the chosen
/// format is the first offered of its kind.
pub open spec fn format_preferred(formats: Seq<SurfaceFormatCandidate>, i: int) -> bool {
    &&& 0 <= i < formats.len()
    &&& formats[i].srgb_nonlinear
    &&& forall|j: int|
        0 <= j < formats.len() && (#[trigger] formats[j]).srgb_nonlinear ==> {
            &&& formats[j].format == SurfaceFormatKind::B8G8R8A8Unorm ==> formats[i].format
                == SurfaceFormatKind::B8G8R8A8Unorm
            &&& formats[j].format == SurfaceFormatKind::R8G8B8A8Unorm ==> (formats[i].format
                == SurfaceFormatKind::B8G8R8A8Unorm || formats[i].format
                == SurfaceFormatKind::R8G8B8A8Unorm)
            &&& formats[j].format == SurfaceFormatKind::B8G8R8A8Srgb ==> (formats[i].format
                != SurfaceFormatKind::R8G8B8A8Srgb && formats[i].format != SurfaceFormatKind::Other)
            &&& formats[j].format == SurfaceFormatKind::R8G8B8A8Srgb ==> formats[i].format
                != SurfaceFormatKind::Other
            &&& j < i ==> formats[j].format != formats[i].format
        }
}

/// The format that ranks first is the preferred one: among formats in non-linear sRGB colour
/// space, BGRA8 unorm beats RGBA8 unorm, which beats BGRA8 sRGB, then RGBA8 sRGB, then any
/// other format, and among equal formats the first offered is taken.
pub proof fn law_surface_format_preference(formats: Seq<SurfaceFormatCandidate>, i: int)
    requires
        is_first_min(formats.map_values(|f: SurfaceFormatCandidate| surface_format_key(f)), i),
    ensures
        format_preferred(formats, i),
{
    let keys = formats.map_values(|f: SurfaceFormatCandidate| surface_format_key(f));
    assert(keys[i] == surface_format_key(formats[i]));
    assert forall|j: int| 0 <= j < formats.len() && (#[trigger] formats[j]).srgb_nonlinear implies {
        &&& formats[j].format == SurfaceFormatKind::B8G8R8A8Unorm ==> formats[i].format
            == SurfaceFormatKind::B8G8R8A8Unorm
        &&& formats[j].format == SurfaceFormatKind::R8G8B8A8Unorm ==> (formats[i].format
            == SurfaceFormatKind::B8G8R8A8Unorm || formats[i].format
            == SurfaceFormatKind::R8G8B8A8Unorm)
        &&& formats[j].format == SurfaceFormatKind::B8G8R8A8Srgb ==> (formats[i].format
            != SurfaceFormatKind::R8G8B8A8Srgb && formats[i].format != SurfaceFormatKind::Other)
        &&& formats[j].format == SurfaceFormatKind::R8G8B8A8Srgb ==> formats[i].format
            != SurfaceFormatKind::Other
        &&& j < i ==> formats[j].format != formats[i].format
    } by {
        assert(keys[j] == surface_format_key(formats[j]));
    }
}

/// The position of the swapchain image format to use: among the formats in non-linear sRGB
/// colour space, the first of the most preferred one (BGRA8 unorm, RGBA8 unorm, BGRA8 sRGB,
/// RGBA8 sRGB, other).
pub fn select_surface_format(formats: &Vec<SurfaceFormatCandidate>) -> (r: Result<usize, LibError>)
    ensures
        match r {
            Ok(i) => {
                &&& is_first_min(formats@.map_values(|f: SurfaceFormatCandidate| surface_format_key(f)), i as int)
                &&& format_preferred(formats@, i as int)
            },
            Err(e) => {
                &&& e is NoSuitableSwapchainImageFormat
                &&& forall|j: int| 0 <= j < formats@.len() ==> !(#[trigger] formats@[j]).srgb_nonlinear
            },
        },
{
    let ghost keys_spec = formats@.map_values(|f: SurfaceFormatCandidate| surface_format_key(f));
    let mut keys: Vec<Option<u32>> = Vec::new();
    let n = formats.len();
    for i in 0..n
        invariant
            n == formats@.len(),
            keys_spec == formats@.map_values(|f: SurfaceFormatCandidate| surface_format_key(f)),
            keys@.len() == i,
            forall|j: int| 0 <= j < i ==> (#[trigger] keys@[j]) == keys_spec[j],
    {
        let f = formats[i];
        let rank: u32 = match f.format {
            SurfaceFormatKind::B8G8R8A8Unorm => 0,
            SurfaceFormatKind::R8G8B8A8Unorm => 1,
            SurfaceFormatKind::B8G8R8A8Srgb => 2,
            SurfaceFormatKind::R8G8B8A8Srgb => 3,
            SurfaceFormatKind::Other => 4,
        };
        if f.srgb_nonlinear {
            keys.push(Some(rank));
        } else {
            keys.push(None);
        }
    }
    proof {
        assert(keys@ =~= keys_spec);
    }
    match first_min_index(&keys) {
        Some(i) => {
            proof {
                law_surface_format_preference(formats@, i as int);
            }
            Ok(i)
        },
        None => {
            proof {
                assert forall|j: int| 0 <= j < formats@.len() implies !(
                #[trigger] formats@[j]).srgb_nonlinear by {
                    assert(keys_spec[j] is None);
                }
            }
            Err(LibError::NoSuitableSwapchainImageFormat)
        },
    }
}

/// The number of swapchain images to ask for: the surface's minimum, but at least two.
pub fn swapchain_min_image_count(surface_min: u32) -> (r: u32)
    ensures
        r == (if surface_min >= 2 {
            surface_min
        } else {
            2
        }),
{
    if surface_min >= 2 {
        surface_min
    } else {
        2
    }
}

} // verus!
