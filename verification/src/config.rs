//! Engine configuration: named video and image presets and the default
//! settings. The preset stores are association lists whose meaning is a
//! map from preset name to preset; every operation is specified against
//! that map.

use vstd::prelude::*;

use crate::error::CompressError;
use crate::presets::{AudioCodec, VideoCodec, VideoPreset};
use crate::sys::{detected_cpus, user_config_dir};
use crate::text::str_eq;

verus! {

/// Image quality used when no preset or explicit quality is given.
pub const DEFAULT_IMAGE_QUALITY: u8 = 85;

/// Default constant-rate-factor values of the built-in video presets.
pub const CRF_ULTRAFAST: u8 = 28;

pub const CRF_FAST: u8 = 25;

pub const CRF_MEDIUM: u8 = 23;

pub const CRF_SLOW: u8 = 20;

pub const CRF_VERYSLOW: u8 = 18;

/// One named video preset: codec, quality, audio settings, encoder speed
/// preset, and whether the encode runs in two passes.
#[derive(Debug)]
pub struct VideoPresetConfig {
    pub codec: VideoCodec,
    pub crf: Option<u8>,
    pub bitrate: Option<String>,
    pub audio_codec: AudioCodec,
    pub audio_bitrate: Option<String>,
    pub preset: String,
    pub two_pass: bool,
    pub extra_args: Vec<String>,
}

/// One named image preset.
#[derive(Debug, Clone, Copy, PartialEq, Eq, Structural)]
pub struct ImagePresetConfig {
    pub quality: u8,
    pub optimize: bool,
    pub progressive: bool,
    pub lossless: bool,
}

/// Batch-wide defaults.
#[derive(Debug)]
pub struct DefaultSettings {
    pub output_dir: Option<String>,
    pub overwrite: bool,
    pub parallel_jobs: usize,
    pub preserve_metadata: bool,
    pub backup_originals: bool,
}

/// The view of an optional owned string.
pub open spec fn opt_str_view(o: Option<String>) -> Option<Seq<char>> {
    match o {
        Some(s) => Some(s@),
        None => None,
    }
}

/// The map denoted by an association list: a later entry with the same
/// key supersedes an earlier one.
pub open spec fn preset_map_of<V>(s: Seq<(String, V)>) -> Map<Seq<char>, V>
    decreases s.len(),
{
    if s.len() == 0 {
        Map::<Seq<char>, V>::empty()
    } else {
        preset_map_of(s.drop_last()).insert(s.last().0@, s.last().1)
    }
}

proof fn lemma_map_found<V>(s: Seq<(String, V)>, k: Seq<char>, i: int)
    requires
        0 <= i < s.len(),
        s[i].0@ == k,
        forall|j: int| i < j < s.len() ==> (#[trigger] s[j]).0@ != k,
    ensures
        preset_map_of(s).contains_key(k),
        preset_map_of(s)[k] == s[i].1,
    decreases s.len(),
{
    if i == s.len() - 1 {
    } else {
        assert(s.last().0@ != k);
        assert(forall|j: int| 0 <= j < s.len() - 1 ==> #[trigger] s.drop_last()[j] == s[j]);
        lemma_map_found(s.drop_last(), k, i);
    }
}

proof fn lemma_map_absent<V>(s: Seq<(String, V)>, k: Seq<char>)
    requires
        forall|j: int| 0 <= j < s.len() ==> (#[trigger] s[j]).0@ != k,
    ensures
        !preset_map_of(s).contains_key(k),
    decreases s.len(),
{
    if s.len() > 0 {
        assert(forall|j: int| 0 <= j < s.len() - 1 ==> #[trigger] s.drop_last()[j] == s[j]);
        lemma_map_absent(s.drop_last(), k);
        assert(s.last().0@ != k);
    }
}

proof fn lemma_map_contains<V>(s: Seq<(String, V)>, k: Seq<char>)
    ensures
        preset_map_of(s).contains_key(k) <==> exists|j: int|
            0 <= j < s.len() && (#[trigger] s[j]).0@ == k,
    decreases s.len(),
{
    if s.len() > 0 {
        assert(forall|j: int| 0 <= j < s.len() - 1 ==> #[trigger] s.drop_last()[j] == s[j]);
        lemma_map_contains(s.drop_last(), k);
        if s.last().0@ == k {
            assert(s[s.len() - 1].0@ == k);
        } else {
            if preset_map_of(s).contains_key(k) {
                let j = choose|j: int|
                    0 <= j < s.drop_last().len() && (#[trigger] s.drop_last()[j]).0@ == k;
                assert(s[j].0@ == k);
            }
            if exists|j: int| 0 <= j < s.len() && (#[trigger] s[j]).0@ == k {
                let j = choose|j: int| 0 <= j < s.len() && (#[trigger] s[j]).0@ == k;
                assert(j < s.len() - 1);
                assert(s.drop_last()[j].0@ == k);
            }
        }
    }
}

/// The engine's configuration: the two preset stores and the defaults.
#[derive(Debug)]
pub struct Config {
    pub video_presets: Vec<(String, VideoPresetConfig)>,
    pub image_presets: Vec<(String, ImagePresetConfig)>,
    pub default_settings: DefaultSettings,
}

/// True when a video preset has the given built-in shape: the codec, the
/// constant rate factor, an audio bitrate, the encoder speed preset named
/// like the preset itself, and the two-pass flag; no explicit bitrate and
/// no extra arguments.
pub open spec fn video_preset_is(
    c: VideoPresetConfig,
    codec: VideoCodec,
    crf: u8,
    audio_bitrate: Seq<char>,
    preset_name: Seq<char>,
    two_pass: bool,
) -> bool {
    &&& c.codec == codec
    &&& c.crf == Some(crf)
    &&& c.bitrate is None
    &&& c.audio_codec == AudioCodec::Aac
    &&& opt_str_view(c.audio_bitrate) == Some(audio_bitrate)
    &&& c.preset@ == preset_name
    &&& c.two_pass == two_pass
    &&& c.extra_args@.len() == 0
}

/// True when an image preset has the given shape.
pub open spec fn image_preset_is(
    c: ImagePresetConfig,
    quality: u8,
    optimize: bool,
    progressive: bool,
    lossless: bool,
) -> bool {
    c.quality == quality && c.optimize == optimize && c.progressive == progressive
        && c.lossless == lossless
}

impl Config {
    /// The video presets as a map from name to preset.
    pub open spec fn video_map(&self) -> Map<Seq<char>, VideoPresetConfig> {
        preset_map_of(self.video_presets@)
    }

    /// The image presets as a map from name to preset.
    pub open spec fn image_map(&self) -> Map<Seq<char>, ImagePresetConfig> {
        preset_map_of(self.image_presets@)
    }

    /// The built-in configuration: five video presets from `ultrafast` to
    /// `veryslow`, three image presets, and defaults with one parallel job
    /// per detected CPU, at least one.
    pub fn default() -> (c: Config)
        ensures
            c.video_presets@.len() == 5,
            c.image_presets@.len() == 3,
            c.video_map().contains_key("ultrafast"@) && video_preset_is(
                c.video_map()["ultrafast"@],
                VideoCodec::H264,
                28,
                "128k"@,
                "ultrafast"@,
                false,
            ),
            c.video_map().contains_key("fast"@) && video_preset_is(
                c.video_map()["fast"@],
                VideoCodec::H264,
                25,
                "128k"@,
                "fast"@,
                false,
            ),
            c.video_map().contains_key("medium"@) && video_preset_is(
                c.video_map()["medium"@],
                VideoCodec::H264,
                23,
                "128k"@,
                "medium"@,
                false,
            ),
            c.video_map().contains_key("slow"@) && video_preset_is(
                c.video_map()["slow"@],
                VideoCodec::H264,
                20,
                "192k"@,
                "slow"@,
                true,
            ),
            c.video_map().contains_key("veryslow"@) && video_preset_is(
                c.video_map()["veryslow"@],
                VideoCodec::H265,
                18,
                "256k"@,
                "veryslow"@,
                true,
            ),
            c.image_map().contains_key("web"@) && image_preset_is(
                c.image_map()["web"@],
                85,
                true,
                true,
                false,
            ),
            c.image_map().contains_key("high"@) && image_preset_is(
                c.image_map()["high"@],
                95,
                true,
                false,
                false,
            ),
            c.image_map().contains_key("lossless"@) && image_preset_is(
                c.image_map()["lossless"@],
                100,
                true,
                false,
                true,
            ),
            c.default_settings.output_dir is None,
            !c.default_settings.overwrite,
            c.default_settings.parallel_jobs >= 1,
            c.default_settings.preserve_metadata,
            !c.default_settings.backup_originals,
    {
        let mut video_presets: Vec<(String, VideoPresetConfig)> = Vec::new();
        video_presets.push(
            (
                "ultrafast".to_owned(),
                VideoPresetConfig {
                    codec: VideoCodec::H264,
                    crf: Some(CRF_ULTRAFAST),
                    bitrate: None,
                    audio_codec: AudioCodec::Aac,
                    audio_bitrate: Some("128k".to_owned()),
                    preset: "ultrafast".to_owned(),
                    two_pass: false,
                    extra_args: Vec::new(),
                },
            ),
        );
        video_presets.push(
            (
                "fast".to_owned(),
                VideoPresetConfig {
                    codec: VideoCodec::H264,
                    crf: Some(CRF_FAST),
                    bitrate: None,
                    audio_codec: AudioCodec::Aac,
                    audio_bitrate: Some("128k".to_owned()),
                    preset: "fast".to_owned(),
                    two_pass: false,
                    extra_args: Vec::new(),
                },
            ),
        );
        video_presets.push(
            (
                "medium".to_owned(),
                VideoPresetConfig {
                    codec: VideoCodec::H264,
                    crf: Some(CRF_MEDIUM),
                    bitrate: None,
                    audio_codec: AudioCodec::Aac,
                    audio_bitrate: Some("128k".to_owned()),
                    preset: "medium".to_owned(),
                    two_pass: false,
                    extra_args: Vec::new(),
                },
            ),
        );
        video_presets.push(
            (
                "slow".to_owned(),
                VideoPresetConfig {
                    codec: VideoCodec::H264,
                    crf: Some(CRF_SLOW),
                    bitrate: None,
                    audio_codec: AudioCodec::Aac,
                    audio_bitrate: Some("192k".to_owned()),
                    preset: "slow".to_owned(),
                    two_pass: true,
                    extra_args: Vec::new(),
                },
            ),
        );
        video_presets.push(
            (
                "veryslow".to_owned(),
                VideoPresetConfig {
                    codec: VideoCodec::H265,
                    crf: Some(CRF_VERYSLOW),
                    bitrate: None,
                    audio_codec: AudioCodec::Aac,
                    audio_bitrate: Some("256k".to_owned()),
                    preset: "veryslow".to_owned(),
                    two_pass: true,
                    extra_args: Vec::new(),
                },
            ),
        );
        let mut image_presets: Vec<(String, ImagePresetConfig)> = Vec::new();
        image_presets.push(
            (
                "web".to_owned(),
                ImagePresetConfig {
                    quality: DEFAULT_IMAGE_QUALITY,
                    optimize: true,
                    progressive: true,
                    lossless: false,
                },
            ),
        );
        image_presets.push(
            (
                "high".to_owned(),
                ImagePresetConfig { quality: 95, optimize: true, progressive: false, lossless: false },
            ),
        );
        image_presets.push(
            (
                "lossless".to_owned(),
                ImagePresetConfig { quality: 100, optimize: true, progressive: false, lossless: true },
            ),
        );
        proof {
            let v = video_presets@;
            assert(v.len() == 5);
            assert(preset_map_of(v) =~= preset_map_of(v.drop_last()).insert(v[4].0@, v[4].1));
            assert(preset_map_of(v.drop_last()) =~= preset_map_of(v.drop_last().drop_last()).insert(
                v[3].0@,
                v[3].1,
            ));
            assert(preset_map_of(v.drop_last().drop_last()) =~= preset_map_of(
                v.drop_last().drop_last().drop_last(),
            ).insert(v[2].0@, v[2].1));
            assert(preset_map_of(v.drop_last().drop_last().drop_last()) =~= preset_map_of(
                v.drop_last().drop_last().drop_last().drop_last(),
            ).insert(v[1].0@, v[1].1));
            assert(v.drop_last().drop_last().drop_last().drop_last().drop_last()
                =~= Seq::<(String, VideoPresetConfig)>::empty());
            assert(preset_map_of(v.drop_last().drop_last().drop_last().drop_last())
                =~= preset_map_of(Seq::<(String, VideoPresetConfig)>::empty()).insert(
                v[0].0@,
                v[0].1,
            ));
            let w = image_presets@;
            assert(w.len() == 3);
            assert(preset_map_of(w) =~= preset_map_of(w.drop_last()).insert(w[2].0@, w[2].1));
            assert(preset_map_of(w.drop_last()) =~= preset_map_of(w.drop_last().drop_last()).insert(
                w[1].0@,
                w[1].1,
            ));
            assert(w.drop_last().drop_last().drop_last() =~= Seq::<(String, ImagePresetConfig)>::empty());
            assert(preset_map_of(w.drop_last().drop_last()) =~= preset_map_of(
                Seq::<(String, ImagePresetConfig)>::empty(),
            ).insert(w[0].0@, w[0].1));
        }
        let cpus = detected_cpus();
        let parallel_jobs: usize = if cpus == 0 {
            1
        } else {
            cpus
        };
        proof {
            reveal_strlit("ultrafast");
            reveal_strlit("fast");
            reveal_strlit("medium");
            reveal_strlit("slow");
            reveal_strlit("veryslow");
            reveal_strlit("web");
            reveal_strlit("high");
            reveal_strlit("lossless");
            assert("ultrafast"@[0] == 'u');
            assert("fast"@[0] == 'f');
            assert("medium"@[0] == 'm');
            assert("slow"@[0] == 's');
            assert("veryslow"@[0] == 'v');
            assert("web"@[0] == 'w');
            assert("high"@[0] == 'h');
            assert("lossless"@[0] == 'l');
        }
        Config {
            video_presets,
            image_presets,
            default_settings: DefaultSettings {
                output_dir: None,
                overwrite: false,
                parallel_jobs,
                preserve_metadata: true,
                backup_originals: false,
            },
        }
    }

    /// Looks a video preset up by its name; the answer is exactly what
    /// the preset map holds under that name.
    pub fn get_video_preset(&self, preset: &VideoPreset) -> (r: Option<&VideoPresetConfig>)
        ensures
            r matches Some(c) ==> self.video_map().contains_key(preset.spec_name()) && *c
                == self.video_map()[preset.spec_name()],
            r is None ==> !self.video_map().contains_key(preset.spec_name()),
    {
        let key = preset.name();
        let n = self.video_presets.len();
        let mut i: usize = n;
        while i > 0
            invariant
                0 <= i <= n,
                n == self.video_presets@.len(),
                key@ == preset.spec_name(),
                forall|j: int|
                    i <= j < n ==> (#[trigger] self.video_presets@[j]).0@ != key@,
            decreases i,
        {
            i = i - 1;
            if str_eq(self.video_presets[i].0.as_str(), key) {
                proof {
                    lemma_map_found(self.video_presets@, key@, i as int);
                }
                return Some(&self.video_presets[i].1);
            }
        }
        proof {
            lemma_map_absent(self.video_presets@, key@);
        }
        None
    }

    /// Looks an image preset up by name; the answer is exactly what the
    /// preset map holds under that name.
    pub fn get_image_preset(&self, name: &str) -> (r: Option<&ImagePresetConfig>)
        ensures
            r matches Some(c) ==> self.image_map().contains_key(name@) && *c
                == self.image_map()[name@],
            r is None ==> !self.image_map().contains_key(name@),
    {
        let n = self.image_presets.len();
        let mut i: usize = n;
        while i > 0
            invariant
                0 <= i <= n,
                n == self.image_presets@.len(),
                forall|j: int|
                    i <= j < n ==> (#[trigger] self.image_presets@[j]).0@ != name@,
            decreases i,
        {
            i = i - 1;
            if str_eq(self.image_presets[i].0.as_str(), name) {
                proof {
                    lemma_map_found(self.image_presets@, name@, i as int);
                }
                return Some(&self.image_presets[i].1);
            }
        }
        proof {
            lemma_map_absent(self.image_presets@, name@);
        }
        None
    }

    /// Adds a video preset, or replaces the one of that name.
    pub fn add_video_preset(&mut self, name: String, preset: VideoPresetConfig)
        ensures
            final(self).video_map() == old(self).video_map().insert(name@, preset),
            final(self).image_presets == old(self).image_presets,
            final(self).default_settings == old(self).default_settings,
    {
        let ghost before = self.video_presets@;
        self.video_presets.push((name, preset));
        proof {
            assert(self.video_presets@.drop_last() =~= before);
        }
    }

    /// Adds an image preset, or replaces the one of that name.
    pub fn add_image_preset(&mut self, name: String, preset: ImagePresetConfig)
        ensures
            final(self).image_map() == old(self).image_map().insert(name@, preset),
            final(self).video_presets == old(self).video_presets,
            final(self).default_settings == old(self).default_settings,
    {
        let ghost before = self.image_presets@;
        self.image_presets.push((name, preset));
        proof {
            assert(self.image_presets@.drop_last() =~= before);
        }
    }

    /// Removes the video preset of that name; says whether one existed.
    pub fn remove_video_preset(&mut self, name: &str) -> (b: bool)
        ensures
            final(self).video_map() == old(self).video_map().remove(name@),
            b == old(self).video_map().contains_key(name@),
            final(self).image_presets == old(self).image_presets,
            final(self).default_settings == old(self).default_settings,
    {
        let ghost k = name@;
        let mut drained: Vec<(String, VideoPresetConfig)> = Vec::new();
        core::mem::swap(&mut drained, &mut self.video_presets);
        let ghost orig = drained@;
        let n = drained.len();
        let mut found = false;
        let mut i: usize = 0;
        while i < n
            invariant
                0 <= i <= n,
                n == orig.len(),
                k == name@,
                drained@ =~= orig.skip(i as int),
                preset_map_of(self.video_presets@) =~= preset_map_of(orig.take(i as int)).remove(
                    k,
                ),
                found == exists|j: int| 0 <= j < i && (#[trigger] orig[j]).0@ == k,
                self.image_presets == old(self).image_presets,
                self.default_settings == old(self).default_settings,
            decreases n - i,
        {
            let ghost acc = preset_map_of(self.video_presets@);
            let ghost prev_vec = self.video_presets@;
            let e = drained.remove(0);
            proof {
                assert(e == orig[i as int]);
                assert(drained@ =~= orig.skip(i + 1 as int));
                assert(orig.take(i + 1 as int).drop_last() =~= orig.take(i as int));
                assert(orig.take(i + 1 as int).last() == orig[i as int]);
                assert(preset_map_of(orig.take(i + 1 as int)) =~= preset_map_of(
                    orig.take(i as int),
                ).insert(orig[i as int].0@, orig[i as int].1));
            }
            if str_eq(e.0.as_str(), name) {
                found = true;
                proof {
                    assert(orig[i as int].0@ == k);
                    assert(preset_map_of(orig.take(i + 1 as int)).remove(k) =~= preset_map_of(
                        orig.take(i as int),
                    ).remove(k));
                }
            } else {
                self.video_presets.push(e);
                proof {
                    assert(orig[i as int].0@ != k);
                    assert(self.video_presets@.drop_last() =~= prev_vec);
                    assert(self.video_presets@.last() == orig[i as int]);
                    assert(preset_map_of(self.video_presets@) =~= acc.insert(
                        orig[i as int].0@,
                        orig[i as int].1,
                    ));
                    assert(preset_map_of(orig.take(i + 1 as int)).remove(k) =~= preset_map_of(
                        orig.take(i as int),
                    ).remove(k).insert(orig[i as int].0@, orig[i as int].1));
                }
            }
            i = i + 1;
        }
        proof {
            assert(orig.take(n as int) =~= orig);
            lemma_map_contains(orig, k);
        }
        found
    }

    /// Removes the image preset of that name; says whether one existed.
    pub fn remove_image_preset(&mut self, name: &str) -> (b: bool)
        ensures
            final(self).image_map() == old(self).image_map().remove(name@),
            b == old(self).image_map().contains_key(name@),
            final(self).video_presets == old(self).video_presets,
            final(self).default_settings == old(self).default_settings,
    {
        let ghost k = name@;
        let mut drained: Vec<(String, ImagePresetConfig)> = Vec::new();
        core::mem::swap(&mut drained, &mut self.image_presets);
        let ghost orig = drained@;
        let n = drained.len();
        let mut found = false;
        let mut i: usize = 0;
        while i < n
            invariant
                0 <= i <= n,
                n == orig.len(),
                k == name@,
                drained@ =~= orig.skip(i as int),
                preset_map_of(self.image_presets@) =~= preset_map_of(orig.take(i as int)).remove(
                    k,
                ),
                found == exists|j: int| 0 <= j < i && (#[trigger] orig[j]).0@ == k,
                self.video_presets == old(self).video_presets,
                self.default_settings == old(self).default_settings,
            decreases n - i,
        {
            let ghost acc = preset_map_of(self.image_presets@);
            let ghost prev_vec = self.image_presets@;
            let e = drained.remove(0);
            proof {
                assert(e == orig[i as int]);
                assert(drained@ =~= orig.skip(i + 1 as int));
                assert(orig.take(i + 1 as int).drop_last() =~= orig.take(i as int));
                assert(orig.take(i + 1 as int).last() == orig[i as int]);
                assert(preset_map_of(orig.take(i + 1 as int)) =~= preset_map_of(
                    orig.take(i as int),
                ).insert(orig[i as int].0@, orig[i as int].1));
            }
            if str_eq(e.0.as_str(), name) {
                found = true;
                proof {
                    assert(orig[i as int].0@ == k);
                    assert(preset_map_of(orig.take(i + 1 as int)).remove(k) =~= preset_map_of(
                        orig.take(i as int),
                    ).remove(k));
                }
            } else {
                self.image_presets.push(e);
                proof {
                    assert(orig[i as int].0@ != k);
                    assert(self.image_presets@.drop_last() =~= prev_vec);
                    assert(self.image_presets@.last() == orig[i as int]);
                    assert(preset_map_of(self.image_presets@) =~= acc.insert(
                        orig[i as int].0@,
                        orig[i as int].1,
                    ));
                    assert(preset_map_of(orig.take(i + 1 as int)).remove(k) =~= preset_map_of(
                        orig.take(i as int),
                    ).remove(k).insert(orig[i as int].0@, orig[i as int].1));
                }
            }
            i = i + 1;
        }
        proof {
            assert(orig.take(n as int) =~= orig);
            lemma_map_contains(orig, k);
        }
        found
    }

    /// The configuration file's place under a given configuration
    /// directory: `compresscli/config.yaml` inside it when one exists,
    /// and a configuration error when the platform offers none.
    pub fn config_file_path(config_dir: Option<String>) -> (r: Result<String, CompressError>)
        ensures
            r is Ok <==> config_dir is Some,
            config_dir matches Some(d) ==> (r matches Ok(p) && p@ == d@
                + "/compresscli/config.yaml"@),
            config_dir is None ==> (r matches Err(e)
                && e matches CompressError::Config { message: m }
                && m@ == "Could not determine config directory"@),
    {
        match config_dir {
            Some(dir) => {
                let ghost base = dir@;
                let mut path = dir;
                path.append("/compresscli/config.yaml");
                proof {
                    assert(path@ == base + "/compresscli/config.yaml"@);
                }
                Ok(path)
            },
            None => Err(CompressError::config("Could not determine config directory")),
        }
    }

    /// The place of the configuration file in the user's configuration
    /// directory. The directory depends on the environment; the mapping
    /// from its answer to the path is `config_file_path`.
    pub fn get_default_config_path() -> (r: Result<String, CompressError>)
        ensures
            r matches Ok(p) ==> exists|dir: Seq<char>|
                p@ == dir + "/compresscli/config.yaml"@,
            r matches Err(e) ==> e is Config,
    {
        Config::config_file_path(user_config_dir())
    }
}

} // verus!
