//! The input tensor: three planes of normalised samples, each an exact
//! fraction. Rounding the fractions to machine numbers is left to the code that
//! runs the network.

use vstd::prelude::*;
use crate::raster::RgbImage;
use crate::raster::resample;
use crate::raster::resampled;
use crate::raster::sample_index;

verus! {

/// Width of the picture that the network takes.
pub const INPUT_WIDTH: u32 = 224;

/// Height of the picture that the network takes.
pub const INPUT_HEIGHT: u32 = 224;

/// Number of samples in one channel of the input.
pub const PLANE_LEN: usize = 50176;

/// Number of elements of the input tensor: three planes.
pub const TENSOR_LEN: usize = 150528;

/// An exact fraction. The denominator of every fraction that this crate makes
/// is positive.
#[derive(Clone, Copy, Debug, PartialEq, Eq, Structural)]
pub struct Ratio {
    pub num: i32,
    pub den: i32,
}

/// Mean of a channel over the training set, in thousandths.
pub open spec fn mean_milli(channel: int) -> int {
    if channel == 0 {
        485
    } else if channel == 1 {
        456
    } else {
        406
    }
}

/// Standard deviation of a channel over the training set, in thousandths.
pub open spec fn deviation_milli(channel: int) -> int {
    if channel == 0 {
        229
    } else if channel == 1 {
        224
    } else {
        225
    }
}

/// The normalised value of a sample, `(value / 255 - mean) / deviation`, as one
/// fraction: `(1000 * value - 255 * mean_milli) / (255 * deviation_milli)`.
pub open spec fn normalized(channel: int, value: u8) -> Ratio {
    Ratio {
        num: (1000 * value - 255 * mean_milli(channel)) as i32,
        den: (255 * deviation_milli(channel)) as i32,
    }
}

/// Position in the tensor of the element for `channel`, row `y`, column `x`:
/// the tensor holds the three channels one after another, each row by row.
pub open spec fn tensor_index(channel: int, y: int, x: int) -> int {
    channel * 50176 + y * 224 + x
}

/// The input tensor for a picture of the network's input size, given by its
/// samples: element `k` belongs to channel `k / 50176` and to the pixel
/// `k % 50176`, counted row by row.
pub open spec fn tensor_of(pixels: Seq<u8>) -> Seq<Ratio> {
    Seq::new(150528, |k: int| normalized(k / 50176, pixels[(k % 50176) * 3 + k / 50176]))
}

/// Mean of a channel, in thousandths.
pub fn channel_mean_milli(channel: usize) -> (r: i32)
    ensures
        r == mean_milli(channel as int),
{
    if channel == 0 {
        485
    } else if channel == 1 {
        456
    } else {
        406
    }
}

/// Standard deviation of a channel, in thousandths.
pub fn channel_deviation_milli(channel: usize) -> (r: i32)
    ensures
        r == deviation_milli(channel as int),
{
    if channel == 0 {
        229
    } else if channel == 1 {
        224
    } else {
        225
    }
}

/// Normalises one sample of a channel.
pub fn normalize(channel: usize, value: u8) -> (r: Ratio)
    ensures
        r == normalized(channel as int, value),
        r.den > 0,
{
    let num: i32 = 1000 * (value as i32) - 255 * channel_mean_milli(channel);
    let den: i32 = 255 * channel_deviation_milli(channel);
    Ratio { num, den }
}

/// The fraction of a sample is `(value / 255 - mean) / deviation`, with mean and
/// deviation in thousandths. With `value / 255 - mean / 1000` written as
/// `(1000 * value - 255 * mean) / 255000`, and all denominators cleared:
/// `num * deviation * 255000 == (1000 * value - 255 * mean) * 1000 * den`.
pub proof fn normalized_is_the_formula(channel: int, value: u8)
    requires
        0 <= channel < 3,
    ensures
        normalized(channel, value).den > 0,
        normalized(channel, value).num * deviation_milli(channel) * 255000 == (1000 * value - 255
            * mean_milli(channel)) * 1000 * normalized(channel, value).den,
{
    let n: int = 1000 * value - 255 * mean_milli(channel);
    let d: int = deviation_milli(channel);
    assert(normalized(channel, value).num == n);
    assert(normalized(channel, value).den == 255 * d);
    assert(n * d * 255000 == n * 1000 * (255 * d)) by (nonlinear_arith);
}

/// A brighter sample has a greater normalised value: the denominators of one
/// channel are equal, and the numerator grows with the sample.
pub proof fn normalized_is_monotonic(channel: int, darker: u8, brighter: u8)
    requires
        0 <= channel < 3,
        darker < brighter,
    ensures
        normalized(channel, darker).den == normalized(channel, brighter).den,
        normalized(channel, darker).num < normalized(channel, brighter).num,
{
}

/// Resamples a picture to the size that the network takes, whatever its
/// proportions.
pub fn resize_to_input(image: &RgbImage) -> (r: RgbImage)
    requires
        image.well_formed(),
        image.has_area(),
    ensures
        r.width == INPUT_WIDTH,
        r.height == INPUT_HEIGHT,
        r.well_formed(),
        r.pixels@ == resampled(image.pixels@, image.width, image.height, INPUT_WIDTH, INPUT_HEIGHT),
{
    resample(image, INPUT_WIDTH, INPUT_HEIGHT).unwrap()
}

/// Builds the input tensor of a picture that has the network's input size.
pub fn normalized_tensor(image: &RgbImage) -> (tensor: Vec<Ratio>)
    requires
        image.well_formed(),
        image.width == INPUT_WIDTH,
        image.height == INPUT_HEIGHT,
    ensures
        tensor@ == tensor_of(image.pixels@),
{
    assert(3 * image.width * image.height == 150528) by (nonlinear_arith)
        requires
            image.width == 224,
            image.height == 224,
    ;
    let mut tensor: Vec<Ratio> = Vec::with_capacity(TENSOR_LEN);
    let mut k: usize = 0;
    while k < TENSOR_LEN
        invariant
            image.pixels@.len() == 150528,
            k <= TENSOR_LEN,
            tensor@.len() == k,
            forall|j: int| 0 <= j < k ==> #[trigger] tensor@[j] == tensor_of(image.pixels@)[j],
        decreases TENSOR_LEN - k,
    {
        let channel: usize = k / PLANE_LEN;
        let pixel: usize = k % PLANE_LEN;
        tensor.push(normalize(channel, image.pixels[pixel * 3 + channel]));
        k = k + 1;
    }
    assert(tensor@ =~= tensor_of(image.pixels@));
    tensor
}

/// The element of the tensor for a channel, a row and a column is the
/// normalised sample of that channel at that pixel.
pub proof fn tensor_element(pixels: Seq<u8>, channel: int, y: int, x: int)
    requires
        pixels.len() == 150528,
        0 <= channel < 3,
        0 <= y < 224,
        0 <= x < 224,
    ensures
        0 <= tensor_index(channel, y, x) < tensor_of(pixels).len(),
        tensor_of(pixels)[tensor_index(channel, y, x)] == normalized(
            channel,
            pixels[sample_index(224, x, y, channel)],
        ),
{
}

/// A picture of any size and proportions becomes a picture of 224 by 224
/// pixels and a tensor of three planes of that size.
pub fn input_tensor(image: &RgbImage) -> (tensor: Vec<Ratio>)
    requires
        image.well_formed(),
        image.has_area(),
    ensures
        tensor@.len() == TENSOR_LEN,
        tensor@ == tensor_of(
            resampled(image.pixels@, image.width, image.height, INPUT_WIDTH, INPUT_HEIGHT),
        ),
{
    let resized = resize_to_input(image);
    normalized_tensor(&resized)
}

} // verus!
