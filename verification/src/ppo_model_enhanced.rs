//! The training data of the conversion predictor and the parameters it
//! derives from it: samples by media kind and format, the best-compressing
//! sample, and image, video and audio parameters from the averages of the
//! matching samples.
//!
//! Ratios and rewards are `f64` values in the interface, carried as their
//! bit patterns; the averages themselves are computed by the caller.

use vstd::prelude::*;
use crate::floatbits::{f64_key, f64_lt, is_nan_bits, lt};
use crate::text::{owned, push_decimal, str_eq, dec};

verus! {

/// The kind of media of a sample.
#[derive(Debug, Clone, Copy, PartialEq, Eq, Structural)]
pub enum MediaType {
    Image,
    Video,
    Audio,
}

/// Parameters of an image conversion.
#[derive(Debug, Clone, Copy, PartialEq, Eq, Structural)]
pub struct ImageConversionParams {
    pub quality: u8,
    pub speed: u8,
    pub lossless: bool,
}

impl Default for ImageConversionParams {
    /// Quality 85, speed 4, lossy.
    fn default() -> (res: Self)
        ensures
            res == (ImageConversionParams { quality: 85, speed: 4, lossless: false }),
    {
        ImageConversionParams { quality: 85, speed: 4, lossless: false }
    }
}

/// Parameters of a video conversion.
#[derive(Debug, Clone)]
pub struct VideoConversionParams {
    pub bitrate: u32,
    pub preset: String,
    pub crf: u8,
}

impl Default for VideoConversionParams {
    /// 1000 kbit/s, the "medium" preset, CRF 23.
    fn default() -> (res: Self)
        ensures
            res.bitrate == 1000,
            res.preset@ == "medium"@,
            res.crf == 23,
    {
        VideoConversionParams { bitrate: 1000, preset: owned("medium"), crf: 23 }
    }
}

/// Parameters of an audio conversion.
#[derive(Debug, Clone, Copy, PartialEq, Eq, Structural)]
pub struct AudioConversionParams {
    pub bitrate: u32,
    pub sample_rate: u32,
    pub channels: u8,
}

impl Default for AudioConversionParams {
    /// 192 kbit/s, 48 kHz, two channels.
    fn default() -> (res: Self)
        ensures
            res == (AudioConversionParams { bitrate: 192, sample_rate: 48000, channels: 2 }),
    {
        AudioConversionParams { bitrate: 192, sample_rate: 48000, channels: 2 }
    }
}


/// One recorded conversion.
#[derive(Debug, Clone)]
pub struct TrainingSample {
    pub media_type: MediaType,
    pub input_file: String,
    pub input_size: u64,
    pub target_format: String,
    pub quality: u32,
    pub output_size: u64,
    /// The output size over the input size, an `f64` carried as its bits.
    pub compression_ratio_bits: u64,
    /// The reward of the conversion, an `f64` carried as its bits.
    pub reward_bits: u64,
}

/// A training data set: when it was made, how many samples it has, the
/// sample count per media kind, and the samples.
#[derive(Debug, Clone)]
pub struct PPOTrainingData {
    pub timestamp: String,
    pub total_samples: usize,
    /// Sample counts by media kind name (`image`, `video`, `audio`).
    pub stats: Vec<(String, usize)>,
    pub data: Vec<TrainingSample>,
}

/// The sample is of this media kind and target format.
pub open spec fn sample_matches(s: TrainingSample, media_type: MediaType, format: Seq<char>) -> bool {
    s.media_type == media_type && s.target_format@ == format
}

/// `e[r]` compresses best: the lowest ratio, the first of several equal.
pub open spec fn is_best_compression(e: Seq<TrainingSample>, r: int) -> bool {
    &&& 0 <= r < e.len()
    &&& forall|j: int| 0 <= j < e.len() ==> f64_key(e[r].compression_ratio_bits) <= f64_key(
        #[trigger] e[j].compression_ratio_bits,
    )
    &&& forall|j: int| 0 <= j < r ==> f64_key(e[r].compression_ratio_bits) < f64_key(
        #[trigger] e[j].compression_ratio_bits,
    )
}

/// The count recorded for a key: that of its first entry, or 0.
pub open spec fn stat_of(s: Seq<(String, usize)>, key: Seq<char>) -> usize
    decreases s.len(),
{
    if s.len() == 0 {
        0
    } else if s[0].0@ == key {
        s[0].1
    } else {
        stat_of(s.drop_first(), key)
    }
}

proof fn lemma_stat_skip(s: Seq<(String, usize)>, key: Seq<char>, i: int)
    requires
        0 <= i <= s.len(),
        forall|j: int| 0 <= j < i ==> s[j].0@ != key,
    ensures
        stat_of(s, key) == stat_of(s.subrange(i, s.len() as int), key),
    decreases i,
{
    if i > 0 {
        let t = s.drop_first();
        assert forall|j: int| 0 <= j < i - 1 implies t[j].0@ != key by {
            assert(t[j] == s[j + 1]);
        }
        lemma_stat_skip(t, key, i - 1);
        assert(t.subrange(i - 1, t.len() as int) =~= s.subrange(i, s.len() as int));
    } else {
        assert(s.subrange(0, s.len() as int) =~= s);
    }
}

fn stat_lookup(s: &Vec<(String, usize)>, key: &str) -> (res: usize)
    ensures
        res == stat_of(s@, key@),
{
    let mut i: usize = 0;
    while i < s.len()
        invariant
            i <= s@.len(),
            forall|j: int| 0 <= j < i ==> s@[j].0@ != key@,
        decreases s@.len() - i,
    {
        if str_eq(s[i].0.as_str(), key) {
            proof {
                lemma_stat_skip(s@, key@, i as int);
                assert(s@.subrange(i as int, s@.len() as int)[0] == s@[i as int]);
            }
            return s[i].1;
        }
        i = i + 1;
    }
    proof {
        lemma_stat_skip(s@, key@, i as int);
    }
    0
}

impl PPOTrainingData {
    /// The samples of one media kind, in order.
    pub fn filter_by_media_type(&self, media_type: MediaType) -> (res: Vec<&TrainingSample>)
        ensures
            res@.map_values(|t: &TrainingSample| *t) == self.data@.filter(|t: TrainingSample| t.media_type == media_type),
    {
        let mut out: Vec<&TrainingSample> = Vec::new();
        let mut i: usize = 0;
        while i < self.data.len()
            invariant
                i <= self.data@.len(),
                out@.map_values(|t: &TrainingSample| *t) == self.data@.subrange(0, i as int).filter(
                    |t: TrainingSample| t.media_type == media_type,
                ),
            decreases self.data@.len() - i,
        {
            if self.data[i].media_type == media_type {
                out.push(&self.data[i]);
            }
            proof {
                assert(self.data@.subrange(0, i as int + 1).drop_last() =~= self.data@.subrange(0, i as int));
                reveal(Seq::filter);
            }
            assert(out@.map_values(|t: &TrainingSample| *t) =~= self.data@.subrange(0, i as int + 1).filter(
                |t: TrainingSample| t.media_type == media_type,
            ));
            i = i + 1;
        }
        assert(self.data@.subrange(0, self.data@.len() as int) =~= self.data@);
        out
    }

    /// The samples converted to one format, in order.
    pub fn filter_by_format(&self, format: &str) -> (res: Vec<&TrainingSample>)
        ensures
            res@.map_values(|t: &TrainingSample| *t) == self.data@.filter(|t: TrainingSample| t.target_format@ == format@),
    {
        let mut out: Vec<&TrainingSample> = Vec::new();
        let mut i: usize = 0;
        while i < self.data.len()
            invariant
                i <= self.data@.len(),
                out@.map_values(|t: &TrainingSample| *t) == self.data@.subrange(0, i as int).filter(
                    |t: TrainingSample| t.target_format@ == format@,
                ),
            decreases self.data@.len() - i,
        {
            if str_eq(self.data[i].target_format.as_str(), format) {
                out.push(&self.data[i]);
            }
            proof {
                assert(self.data@.subrange(0, i as int + 1).drop_last() =~= self.data@.subrange(0, i as int));
                reveal(Seq::filter);
            }
            assert(out@.map_values(|t: &TrainingSample| *t) =~= self.data@.subrange(0, i as int + 1).filter(
                |t: TrainingSample| t.target_format@ == format@,
            ));
            i = i + 1;
        }
        assert(self.data@.subrange(0, self.data@.len() as int) =~= self.data@);
        out
    }

    /// The samples of one media kind converted to one format, in order.
    pub fn samples_for(&self, media_type: MediaType, format: &str) -> (res: Vec<&TrainingSample>)
        ensures
            res@.map_values(|t: &TrainingSample| *t) == self.data@.filter(
                |t: TrainingSample| sample_matches(t, media_type, format@),
            ),
    {
        let mut out: Vec<&TrainingSample> = Vec::new();
        let mut i: usize = 0;
        while i < self.data.len()
            invariant
                i <= self.data@.len(),
                out@.map_values(|t: &TrainingSample| *t) == self.data@.subrange(0, i as int).filter(
                    |t: TrainingSample| sample_matches(t, media_type, format@),
                ),
            decreases self.data@.len() - i,
        {
            if self.data[i].media_type == media_type && str_eq(self.data[i].target_format.as_str(), format) {
                out.push(&self.data[i]);
            }
            proof {
                assert(self.data@.subrange(0, i as int + 1).drop_last() =~= self.data@.subrange(0, i as int));
                reveal(Seq::filter);
            }
            assert(out@.map_values(|t: &TrainingSample| *t) =~= self.data@.subrange(0, i as int + 1).filter(
                |t: TrainingSample| sample_matches(t, media_type, format@),
            ));
            i = i + 1;
        }
        assert(self.data@.subrange(0, self.data@.len() as int) =~= self.data@);
        out
    }

    /// The matching sample with the lowest compression ratio (the first of
    /// several equal), or `None` when no sample matches.
    pub fn get_best_compression(&self, media_type: MediaType, format: &str) -> (res: Option<&TrainingSample>)
        requires
            ({
                let e = self.data@.filter(|t: TrainingSample| sample_matches(t, media_type, format@));
                e.len() >= 2 ==> forall|j: int| 0 <= j < e.len() ==> !is_nan_bits(#[trigger] e[j].compression_ratio_bits)
            }),
        ensures
            ({
                let e = self.data@.filter(|t: TrainingSample| sample_matches(t, media_type, format@));
                match res {
                    None => e.len() == 0,
                    Some(t) => exists|r: int| is_best_compression(e, r) && *t == e[r],
                }
            }),
    {
        let samples = self.samples_for(media_type, format);
        let ghost e = self.data@.filter(|t: TrainingSample| sample_matches(t, media_type, format@));
        assert forall|k: int| 0 <= k < e.len() implies *samples@[k] == e[k] by {
            assert(samples@.map_values(|t: &TrainingSample| *t)[k] == *samples@[k]);
        }
        if samples.len() == 0 {
            return None;
        }
        let mut best: usize = 0;
        let mut i: usize = 1;
        while i < samples.len()
            invariant
                1 <= i <= samples@.len(),
                samples@.len() == e.len(),
                forall|k: int| 0 <= k < e.len() ==> *samples@[k] == e[k],
                e.len() >= 2 ==> forall|j: int| 0 <= j < e.len() ==> !is_nan_bits(#[trigger] e[j].compression_ratio_bits),
                is_best_compression(e.subrange(0, i as int), best as int),
            decreases samples@.len() - i,
        {
            proof {
                assert(e.subrange(0, i as int).len() == i);
                assert(!is_nan_bits(e[best as int].compression_ratio_bits) && !is_nan_bits(
                    e[i as int].compression_ratio_bits,
                ));
            }
            if lt(samples[i].compression_ratio_bits, samples[best].compression_ratio_bits) {
                best = i;
            }
            i = i + 1;
            assert forall|j: int| 0 <= j < i implies #[trigger] e.subrange(0, i as int)[j] == e[j] by {}
        }
        assert(e.subrange(0, e.len() as int) =~= e);
        Some(samples[best])
    }
}

/// 0.5 as an `f64`.
pub const HALF_BITS: u64 = 0x3FE0_0000_0000_0000u64;
/// 0.8 as an `f64`.
pub const POINT_EIGHT_BITS: u64 = 0x3FE9_9999_9999_999Au64;
/// 0.3 as an `f64`.
pub const POINT_THREE_BITS: u64 = 0x3FD3_3333_3333_3333u64;
/// 1.0 as an `f64`.
pub const ONE_BITS: u64 = 0x3FF0_0000_0000_0000u64;
/// 2.0 as an `f64`.
pub const TWO_BITS: u64 = 0x4000_0000_0000_0000u64;

/// The encoder speed for an average compression ratio: 6 under 0.5, 4
/// under 0.8, else 2.
pub open spec fn speed_for_ratio(ratio_bits: u64) -> u8 {
    if f64_lt(ratio_bits, HALF_BITS) {
        6
    } else if f64_lt(ratio_bits, POINT_EIGHT_BITS) {
        4
    } else {
        2
    }
}

/// The video preset for an average reward: "slow" over 0.5, "medium" over
/// 0.3, else "fast".
pub open spec fn preset_for_reward(reward_bits: u64) -> Seq<char> {
    if f64_lt(HALF_BITS, reward_bits) {
        "slow"@
    } else if f64_lt(POINT_THREE_BITS, reward_bits) {
        "medium"@
    } else {
        "fast"@
    }
}

/// The CRF for an average compression ratio: 18 under 1, 23 under 2, else 28.
pub open spec fn crf_for_ratio(ratio_bits: u64) -> u8 {
    if f64_lt(ratio_bits, ONE_BITS) {
        18
    } else if f64_lt(ratio_bits, TWO_BITS) {
        23
    } else {
        28
    }
}

/// The video bitrate for an average compression ratio: 1000 under 1, 1500
/// under 2, else 2000.
pub open spec fn video_bitrate_for_ratio(ratio_bits: u64) -> u32 {
    if f64_lt(ratio_bits, ONE_BITS) {
        1000
    } else if f64_lt(ratio_bits, TWO_BITS) {
        1500
    } else {
        2000
    }
}

/// The base image quality for a file size: 80 over 5 MB, 90 under 500 kB,
/// else 85.
pub open spec fn base_quality(file_size: u64) -> int {
    if file_size > 5_000_000 {
        80
    } else if file_size < 500_000 {
        90
    } else {
        85
    }
}

/// The formats considered for a media kind, in order.
pub open spec fn candidates_for(media_type: MediaType) -> Seq<Seq<char>> {
    match media_type {
        MediaType::Image => seq!["webp"@, "avif"@, "jxl"@],
        MediaType::Video => seq!["webm"@, "mp4"@],
        MediaType::Audio => seq!["opus"@, "aac"@, "mp3"@],
    }
}

/// `r` has the highest reward, the last of several equal.
pub open spec fn is_best_reward(rewards: Seq<u64>, r: int) -> bool {
    &&& 0 <= r < rewards.len()
    &&& forall|j: int| 0 <= j < rewards.len() ==> f64_key(#[trigger] rewards[j]) <= f64_key(rewards[r])
    &&& forall|j: int| r < j < rewards.len() ==> f64_key(#[trigger] rewards[j]) < f64_key(rewards[r])
}

/// The conversion predictor: its training data, and whether it predicts
/// (when off, every prediction is the default).
pub struct EnhancedPPOPredictor {
    training_data: PPOTrainingData,
    enabled: bool,
}

impl EnhancedPPOPredictor {
    pub closed spec fn spec_data(&self) -> PPOTrainingData {
        self.training_data
    }

    pub closed spec fn spec_enabled(&self) -> bool {
        self.enabled
    }

    /// A predictor over training data, switched on.
    pub fn new(training_data: PPOTrainingData) -> (res: Self)
        ensures
            res.spec_data() == training_data,
            res.spec_enabled(),
    {
        EnhancedPPOPredictor { training_data, enabled: true }
    }

    /// Switches predictions on or off.
    pub fn set_enabled(&mut self, enabled: bool)
        ensures
            final(self).spec_enabled() == enabled,
            final(self).spec_data() == old(self).spec_data(),
    {
        self.enabled = enabled;
    }

    /// Whether predictions are on.
    pub fn is_enabled(&self) -> (res: bool)
        ensures
            res == self.spec_enabled(),
    {
        self.enabled
    }

    /// The training data.
    pub fn training_data(&self) -> (res: &PPOTrainingData)
        ensures
            *res == self.spec_data(),
    {
        &self.training_data
    }

    /// The encoder speed for an average compression ratio.
    pub fn predict_speed_from_ratio(ratio_bits: u64) -> (res: u8)
        ensures
            res == speed_for_ratio(ratio_bits),
    {
        if lt(ratio_bits, HALF_BITS) {
            6
        } else if lt(ratio_bits, POINT_EIGHT_BITS) {
            4
        } else {
            2
        }
    }

    /// The video preset for an average reward.
    pub fn predict_preset_from_reward(reward_bits: u64) -> (res: String)
        ensures
            res@ == preset_for_reward(reward_bits),
    {
        if lt(HALF_BITS, reward_bits) {
            owned("slow")
        } else if lt(POINT_THREE_BITS, reward_bits) {
            owned("medium")
        } else {
            owned("fast")
        }
    }

    /// The CRF for an average compression ratio.
    pub fn calculate_crf_from_ratio(ratio_bits: u64) -> (res: u8)
        ensures
            res == crf_for_ratio(ratio_bits),
    {
        if lt(ratio_bits, ONE_BITS) {
            18
        } else if lt(ratio_bits, TWO_BITS) {
            23
        } else {
            28
        }
    }

    /// The base image quality for a file size.
    pub fn base_quality_for(file_size: u64) -> (res: i32)
        ensures
            res == base_quality(file_size),
    {
        if file_size > 5_000_000 {
            80
        } else if file_size < 500_000 {
            90
        } else {
            85
        }
    }

    /// Image parameters for a file of `file_size` bytes, from the average
    /// compression ratio of the matching samples and the quality adjustment
    /// their average reward gives (ten times the reward, truncated): the
    /// base quality by size plus the adjustment, kept within 60..=100; the
    /// speed by the ratio; lossless when the ratio is under 0.5.
    pub fn predict_image_params(&self, file_size: u64, avg_ratio_bits: u64, quality_adjustment: i32) -> (res:
        ImageConversionParams)
        requires
            self.spec_enabled() ==> base_quality(file_size) + quality_adjustment <= i32::MAX,
        ensures
            !self.spec_enabled() ==> res == (ImageConversionParams { quality: 85, speed: 4, lossless: false }),
            self.spec_enabled() ==> {
                let q = base_quality(file_size) + quality_adjustment;
                &&& res.quality == if q < 60 { 60 } else if q > 100 { 100 } else { q }
                &&& res.speed == speed_for_ratio(avg_ratio_bits)
                &&& res.lossless == f64_lt(avg_ratio_bits, HALF_BITS)
            },
    {
        if !self.enabled {
            return ImageConversionParams::default();
        }
        let q = Self::base_quality_for(file_size) + quality_adjustment;
        let quality: u8 = if q < 60 {
            60
        } else if q > 100 {
            100
        } else {
            q as u8
        };
        ImageConversionParams {
            quality,
            speed: Self::predict_speed_from_ratio(avg_ratio_bits),
            lossless: lt(avg_ratio_bits, HALF_BITS),
        }
    }

    /// Video parameters from the average compression ratio and reward of
    /// the matching samples.
    pub fn predict_video_params(&self, avg_ratio_bits: u64, avg_reward_bits: u64) -> (res: VideoConversionParams)
        ensures
            !self.spec_enabled() ==> res.bitrate == 1000 && res.preset@ == "medium"@ && res.crf == 23,
            self.spec_enabled() ==> res.bitrate == video_bitrate_for_ratio(avg_ratio_bits) && res.preset@
                == preset_for_reward(avg_reward_bits) && res.crf == crf_for_ratio(avg_ratio_bits),
    {
        if !self.enabled {
            return VideoConversionParams::default();
        }
        let bitrate: u32 = if lt(avg_ratio_bits, ONE_BITS) {
            1000
        } else if lt(avg_ratio_bits, TWO_BITS) {
            1500
        } else {
            2000
        };
        VideoConversionParams {
            bitrate,
            preset: Self::predict_preset_from_reward(avg_reward_bits),
            crf: Self::calculate_crf_from_ratio(avg_ratio_bits),
        }
    }

    /// Audio parameters for a target format: 128 kbit/s for AAC, 160 for
    /// Opus, 192 otherwise, at 48 kHz in stereo.
    pub fn predict_audio_params(&self, format: &str, file_size: u64) -> (res: AudioConversionParams)
        ensures
            res == (AudioConversionParams {
                bitrate: if !self.spec_enabled() {
                    192u32
                } else if format@ == "aac"@ {
                    128u32
                } else if format@ == "opus"@ {
                    160u32
                } else {
                    192u32
                },
                sample_rate: 48000,
                channels: 2,
            }),
    {
        if !self.enabled {
            return AudioConversionParams::default();
        }
        let bitrate: u32 = if str_eq(format, "aac") {
            128
        } else if str_eq(format, "opus") {
            160
        } else {
            192
        };
        AudioConversionParams { bitrate, sample_rate: 48000, channels: 2 }
    }

    /// The formats considered for a media kind, in order.
    pub fn candidate_formats(media_type: MediaType) -> (res: Vec<String>)
        ensures
            res@.map_values(|s: String| s@) == candidates_for(media_type),
    {
        let v = match media_type {
            MediaType::Image => vec![owned("webp"), owned("avif"), owned("jxl")],
            MediaType::Video => vec![owned("webm"), owned("mp4")],
            MediaType::Audio => vec![owned("opus"), owned("aac"), owned("mp3")],
        };
        assert(v@.map_values(|s: String| s@) =~= candidates_for(media_type));
        v
    }

    /// The candidate format with the highest average reward (the last of
    /// several equal); `average_rewards` holds the candidates' average
    /// rewards, in the order of `candidate_formats`.
    pub fn recommend_best_format(&self, media_type: MediaType, average_rewards: &[u64]) -> (res: String)
        requires
            average_rewards@.len() == candidates_for(media_type).len(),
            forall|j: int| 0 <= j < average_rewards@.len() ==> !is_nan_bits(#[trigger] average_rewards@[j]),
        ensures
            exists|r: int| is_best_reward(average_rewards@, r) && res@ == candidates_for(media_type)[r],
    {
        let names = Self::candidate_formats(media_type);
        let mut best: usize = 0;
        let mut i: usize = 1;
        while i < average_rewards.len()
            invariant
                1 <= i <= average_rewards@.len(),
                average_rewards@.len() == candidates_for(media_type).len(),
                forall|j: int| 0 <= j < average_rewards@.len() ==> !is_nan_bits(#[trigger] average_rewards@[j]),
                is_best_reward(average_rewards@.subrange(0, i as int), best as int),
            decreases average_rewards@.len() - i,
        {
            if !lt(average_rewards[i], average_rewards[best]) {
                best = i;
            }
            i = i + 1;
            assert forall|j: int| 0 <= j < i implies #[trigger] average_rewards@.subrange(0, i as int)[j]
                == average_rewards@[j] by {}
        }
        assert(average_rewards@.subrange(0, average_rewards@.len() as int) =~= average_rewards@);
        proof {
            assert(names@.map_values(|s: String| s@)[best as int] == names@[best as int]@);
        }
        owned(names[best].as_str())
    }

    /// A one-line account of the training data: its sample total, the
    /// image, video and audio counts, and its timestamp.
    pub fn get_training_stats(&self) -> (res: String)
        ensures
            res@ == "PPO Training Data: total_samples="@ + dec(self.spec_data().total_samples as nat) + ", images="@
                + dec(stat_of(self.spec_data().stats@, "image"@) as nat) + ", videos="@ + dec(
                stat_of(self.spec_data().stats@, "video"@) as nat,
            ) + ", audio="@ + dec(stat_of(self.spec_data().stats@, "audio"@) as nat) + ", timestamp="@
                + self.spec_data().timestamp@,
    {
        let d = &self.training_data;
        let images = stat_lookup(&d.stats, "image");
        let videos = stat_lookup(&d.stats, "video");
        let audio = stat_lookup(&d.stats, "audio");
        let mut out = owned("PPO Training Data: total_samples=");
        push_decimal(&mut out, d.total_samples as u64);
        out.append(", images=");
        push_decimal(&mut out, images as u64);
        out.append(", videos=");
        push_decimal(&mut out, videos as u64);
        out.append(", audio=");
        push_decimal(&mut out, audio as u64);
        out.append(", timestamp=");
        out.append(d.timestamp.as_str());
        out
    }
}

} // verus!
