//! Choice of a target format for an input file: a recommendation for each
//! input format, a check of the user's own choice against known risky
//! conversions, and the capabilities and scores of formats.
//!
//! Confidences and size changes are fixed decimal figures; they are held in
//! thousandths (`950` is 0.95, `-700` is -0.7).

use vstd::prelude::*;
use vstd::string::*;
use crate::text::{lowercase, to_lower, str_eq, owned, concat2, views, push_msg, has_sub, occurs_at};
use crate::paths::{extension, extension_of};
use crate::formats::SupportedFormat;

verus! {

/// A recommended target format.
#[derive(Debug, Clone)]
pub struct FormatRecommendation {
    pub recommended_format: String,
    /// Confidence in thousandths (0-1000).
    pub confidence_permille: u16,
    pub reason: String,
    pub alternatives: Vec<String>,
    /// Expected change of the file size in thousandths (negative: smaller).
    pub estimated_size_change_permille: i16,
}

/// The meaning of a recommendation.
pub struct RecommendationView {
    pub format: Seq<char>,
    pub confidence: u16,
    pub reason: Seq<char>,
    pub alternatives: Seq<Seq<char>>,
    pub size_change: i16,
}

impl View for FormatRecommendation {
    type V = RecommendationView;

    open spec fn view(&self) -> RecommendationView {
        RecommendationView {
            format: self.recommended_format@,
            confidence: self.confidence_permille,
            reason: self.reason@,
            alternatives: views(self.alternatives@),
            size_change: self.estimated_size_change_permille,
        }
    }
}

/// The format selector.
pub struct FormatSelector {
    aggressive: bool,
}

pub open spec fn is_jpeg_name(f: Seq<char>) -> bool {
    f == "jpg"@ || f == "jpeg"@
}

/// Whether converting `input` to `target` is known to be risky, and why.
pub open spec fn risk_of(input: Seq<char>, target: Seq<char>) -> (bool, Seq<char>) {
    if is_jpeg_name(input) && target == "webp"@ {
        (true, "JPEG已经是有损压缩，转WebP可能增大文件。建议保持JPEG或转JXL"@)
    } else if is_jpeg_name(input) && target == "avif"@ {
        (false, "JPEG→AVIF通常有效，但建议使用quality≥80"@)
    } else if input == "png"@ && is_jpeg_name(target) {
        (true, "PNG可能包含透明度，转JPEG会丢失。建议转WebP/AVIF/JXL"@)
    } else if input == "webp"@ && is_jpeg_name(target) {
        (true, "WebP→JPEG可能损失质量。建议保持WebP或转AVIF/JXL"@)
    } else {
        (false, seq![])
    }
}

/// Other formats worth trying for an input format.
pub open spec fn alternatives_for(input: Seq<char>) -> Seq<Seq<char>> {
    if is_jpeg_name(input) {
        seq!["jxl"@, "avif"@]
    } else if input == "png"@ {
        seq!["avif"@, "webp"@, "jxl"@]
    } else if input == "webp"@ {
        seq!["avif"@, "jxl"@]
    } else if input == "gif"@ {
        seq!["webp"@, "mp4"@]
    } else {
        seq!["avif"@, "webp"@]
    }
}

/// The recommendation for a format the user chose (already lower-cased).
pub open spec fn user_choice(input: Seq<char>, target: Seq<char>) -> RecommendationView {
    let (risky, reason) = risk_of(input, target);
    if risky {
        RecommendationView {
            format: target,
            confidence: 500,
            reason: "⚠️ "@ + reason,
            alternatives: alternatives_for(input),
            size_change: 100i16,
        }
    } else {
        RecommendationView {
            format: target,
            confidence: 900,
            reason: "用户指定格式，验证通过"@,
            alternatives: seq![],
            size_change: -300i16,
        }
    }
}

/// The recommendation for an input format when the user chose none.
pub open spec fn auto_choice(input: Seq<char>) -> RecommendationView {
    if input == "png"@ {
        RecommendationView {
            format: "avif"@,
            confidence: 950,
            reason: "PNG→AVIF: 最佳压缩率（60-80%），保留透明度"@,
            alternatives: seq!["webp"@, "jxl"@],
            size_change: -700i16,
        }
    } else if is_jpeg_name(input) {
        RecommendationView {
            format: "jxl"@,
            confidence: 900,
            reason: "JPEG→JXL: 无损重新包装（减小20-30%），无质量损失"@,
            alternatives: seq!["avif"@],
            size_change: -250i16,
        }
    } else if input == "webp"@ {
        RecommendationView {
            format: "avif"@,
            confidence: 850,
            reason: "WebP→AVIF: 更好的压缩率（20-40%）"@,
            alternatives: seq!["jxl"@],
            size_change: -300i16,
        }
    } else if input == "gif"@ {
        RecommendationView {
            format: "webp"@,
            confidence: 900,
            reason: "GIF→WebP: 保留动画，大幅减小文件（70-90%）"@,
            alternatives: seq!["avif"@, "mp4"@],
            size_change: -800i16,
        }
    } else if input == "avif"@ {
        RecommendationView {
            format: "avif"@,
            confidence: 1000,
            reason: "AVIF已经是最佳格式，建议保持或优化参数"@,
            alternatives: seq![],
            size_change: -100i16,
        }
    } else if input == "jxl"@ {
        RecommendationView {
            format: "jxl"@,
            confidence: 1000,
            reason: "JXL已经是最佳格式，建议保持或优化参数"@,
            alternatives: seq![],
            size_change: -100i16,
        }
    } else {
        RecommendationView {
            format: "avif"@,
            confidence: 700,
            reason: "未知格式'"@ + input + "'，默认推荐AVIF"@,
            alternatives: seq!["webp"@, "jxl"@],
            size_change: -500i16,
        }
    }
}

/// The lower-cased extension of a path, empty when it has none.
pub open spec fn input_format_of(path: Seq<char>) -> Seq<char> {
    match extension_of(path) {
        Some(e) => lowercase(e),
        None => seq![],
    }
}

fn list2(a: &str, b: &str) -> (res: Vec<String>)
    ensures
        views(res@) == seq![a@, b@],
{
    let mut v: Vec<String> = Vec::new();
    assert(views(v@) =~= seq![]);
    push_msg(&mut v, owned(a));
    push_msg(&mut v, owned(b));
    assert(views(v@) =~= seq![a@, b@]);
    v
}

fn list1(a: &str) -> (res: Vec<String>)
    ensures
        views(res@) == seq![a@],
{
    let mut v: Vec<String> = Vec::new();
    assert(views(v@) =~= seq![]);
    push_msg(&mut v, owned(a));
    assert(views(v@) =~= seq![a@]);
    v
}

fn list0() -> (res: Vec<String>)
    ensures
        views(res@) == Seq::<Seq<char>>::empty(),
{
    let v: Vec<String> = Vec::new();
    assert(views(v@) =~= seq![]);
    v
}

fn list3(a: &str, b: &str, c: &str) -> (res: Vec<String>)
    ensures
        views(res@) == seq![a@, b@, c@],
{
    let mut v = list2(a, b);
    push_msg(&mut v, owned(c));
    assert(views(v@) =~= seq![a@, b@, c@]);
    v
}

fn recommendation(format: &str, confidence: u16, reason: String, alternatives: Vec<String>, change: i16) -> (res:
    FormatRecommendation)
    ensures
        res@ == (RecommendationView {
            format: format@,
            confidence,
            reason: reason@,
            alternatives: views(alternatives@),
            size_change: change,
        }),
{
    FormatRecommendation {
        recommended_format: owned(format),
        confidence_permille: confidence,
        reason,
        alternatives,
        estimated_size_change_permille: change,
    }
}

impl FormatSelector {
    pub closed spec fn is_aggressive(&self) -> bool {
        self.aggressive
    }

    /// A selector; `aggressive` is kept for trying more formats.
    pub fn new(aggressive: bool) -> (res: Self)
        ensures
            res.is_aggressive() == aggressive,
    {
        FormatSelector { aggressive }
    }

    /// The best target for an input file: the user's choice checked against
    /// risky conversions, or else the recommendation for the input format
    /// (the path's extension, lower-cased).
    pub fn select_best_format(&self, input_path: &str, user_target: Option<&str>) -> (res: FormatRecommendation)
        ensures
            res@ == match user_target {
                Some(t) => user_choice(input_format_of(input_path@), lowercase(t@)),
                None => auto_choice(input_format_of(input_path@)),
            },
    {
        let input_ext = match extension(input_path) {
            Some(e) => to_lower(e.as_str()),
            None => String::new(),
        };
        match user_target {
            Some(t) => {
                let target = to_lower(t);
                Self::validate_user_choice(input_ext.as_str(), target.as_str())
            },
            None => Self::auto_select_format(input_ext.as_str()),
        }
    }

    /// The recommendation for a user's choice of `target` (lower-case).
    fn validate_user_choice(input_format: &str, target: &str) -> (res: FormatRecommendation)
        ensures
            res@ == user_choice(input_format@, target@),
    {
        let (risky, reason) = Self::check_risky_conversion(input_format, target);
        if risky {
            recommendation(target, 500, concat2("⚠️ ", reason.as_str()), Self::suggest_alternatives(input_format), 100)
        } else {
            recommendation(target, 900, owned("用户指定格式，验证通过"), list0(), -300)
        }
    }

    /// Whether converting `input` to `target` (both lower-case) is risky, and why.
    fn check_risky_conversion(input: &str, target: &str) -> (res: (bool, String))
        ensures
            res.0 == risk_of(input@, target@).0,
            res.1@ == risk_of(input@, target@).1,
    {
        let in_jpeg = str_eq(input, "jpg") || str_eq(input, "jpeg");
        let out_jpeg = str_eq(target, "jpg") || str_eq(target, "jpeg");
        if in_jpeg && str_eq(target, "webp") {
            (true, owned("JPEG已经是有损压缩，转WebP可能增大文件。建议保持JPEG或转JXL"))
        } else if in_jpeg && str_eq(target, "avif") {
            (false, owned("JPEG→AVIF通常有效，但建议使用quality≥80"))
        } else if str_eq(input, "png") && out_jpeg {
            (true, owned("PNG可能包含透明度，转JPEG会丢失。建议转WebP/AVIF/JXL"))
        } else if str_eq(input, "webp") && out_jpeg {
            (true, owned("WebP→JPEG可能损失质量。建议保持WebP或转AVIF/JXL"))
        } else {
            let s = String::new();
            (false, s)
        }
    }

    /// The recommendation for an input format (lower-case).
    fn auto_select_format(input: &str) -> (res: FormatRecommendation)
        ensures
            res@ == auto_choice(input@),
    {
        if str_eq(input, "png") {
            recommendation("avif", 950, owned("PNG→AVIF: 最佳压缩率（60-80%），保留透明度"), list2("webp", "jxl"), -700)
        } else if str_eq(input, "jpg") || str_eq(input, "jpeg") {
            recommendation("jxl", 900, owned("JPEG→JXL: 无损重新包装（减小20-30%），无质量损失"), list1("avif"), -250)
        } else if str_eq(input, "webp") {
            recommendation("avif", 850, owned("WebP→AVIF: 更好的压缩率（20-40%）"), list1("jxl"), -300)
        } else if str_eq(input, "gif") {
            recommendation("webp", 900, owned("GIF→WebP: 保留动画，大幅减小文件（70-90%）"), list2("avif", "mp4"), -800)
        } else if str_eq(input, "avif") {
            recommendation("avif", 1000, owned("AVIF已经是最佳格式，建议保持或优化参数"), list0(), -100)
        } else if str_eq(input, "jxl") {
            recommendation("jxl", 1000, owned("JXL已经是最佳格式，建议保持或优化参数"), list0(), -100)
        } else {
            let mut reason = concat2("未知格式'", input);
            reason.append("'，默认推荐AVIF");
            recommendation("avif", 700, reason, list2("webp", "jxl"), -500)
        }
    }

    /// Other formats worth trying for an input format (lower-case).
    fn suggest_alternatives(input: &str) -> (res: Vec<String>)
        ensures
            views(res@) == alternatives_for(input@),
    {
        if str_eq(input, "jpg") || str_eq(input, "jpeg") {
            list2("jxl", "avif")
        } else if str_eq(input, "png") {
            list3("avif", "webp", "jxl")
        } else if str_eq(input, "webp") {
            list2("avif", "jxl")
        } else if str_eq(input, "gif") {
            list2("webp", "mp4")
        } else {
            list2("avif", "webp")
        }
    }
}

/// Capabilities and scores of formats named in lower case.
pub struct FormatCompatibilityChecker;

pub open spec fn transparency_spec(f: Seq<char>) -> bool {
    f == "png"@ || f == "webp"@ || f == "avif"@ || f == "jxl"@
}

pub open spec fn animation_spec(f: Seq<char>) -> bool {
    f == "gif"@ || f == "webp"@ || f == "avif"@ || f == "jxl"@
}

pub open spec fn efficiency_spec(f: Seq<char>) -> u8 {
    if f == "avif"@ {
        10
    } else if f == "jxl"@ {
        9
    } else if f == "webp"@ || f == "heic"@ {
        8
    } else if f == "png"@ {
        5
    } else if f == "jpg"@ || f == "jpeg"@ {
        6
    } else if f == "gif"@ {
        3
    } else if f == "bmp"@ {
        1
    } else {
        5
    }
}

pub open spec fn compatibility_spec(f: Seq<char>) -> u8 {
    if f == "jpg"@ || f == "jpeg"@ || f == "png"@ {
        10
    } else if f == "webp"@ {
        8
    } else if f == "gif"@ {
        9
    } else if f == "avif"@ {
        6
    } else if f == "jxl"@ {
        4
    } else {
        5
    }
}

impl FormatCompatibilityChecker {
    /// PNG, WebP, AVIF and JPEG XL store transparency.
    pub fn supports_transparency(format: &str) -> (res: bool)
        ensures
            res == transparency_spec(format@),
    {
        str_eq(format, "png") || str_eq(format, "webp") || str_eq(format, "avif") || str_eq(format, "jxl")
    }

    /// GIF, WebP, AVIF and JPEG XL store animation.
    pub fn supports_animation(format: &str) -> (res: bool)
        ensures
            res == animation_spec(format@),
    {
        str_eq(format, "gif") || str_eq(format, "webp") || str_eq(format, "avif") || str_eq(format, "jxl")
    }

    /// PNG, WebP, AVIF and JPEG XL compress without loss.
    pub fn supports_lossless(format: &str) -> (res: bool)
        ensures
            res == transparency_spec(format@),
    {
        str_eq(format, "png") || str_eq(format, "webp") || str_eq(format, "avif") || str_eq(format, "jxl")
    }

    /// Compression efficiency score (0-10).
    pub fn compression_efficiency(format: &str) -> (res: u8)
        ensures
            res == efficiency_spec(format@),
            res <= 10,
    {
        if str_eq(format, "avif") {
            10
        } else if str_eq(format, "jxl") {
            9
        } else if str_eq(format, "webp") || str_eq(format, "heic") {
            8
        } else if str_eq(format, "png") {
            5
        } else if str_eq(format, "jpg") || str_eq(format, "jpeg") {
            6
        } else if str_eq(format, "gif") {
            3
        } else if str_eq(format, "bmp") {
            1
        } else {
            5
        }
    }

    /// Compatibility score (0-10): how widely the format is supported.
    pub fn compatibility_score(format: &str) -> (res: u8)
        ensures
            res == compatibility_spec(format@),
            res <= 10,
    {
        if str_eq(format, "jpg") || str_eq(format, "jpeg") || str_eq(format, "png") {
            10
        } else if str_eq(format, "webp") {
            8
        } else if str_eq(format, "gif") {
            9
        } else if str_eq(format, "avif") {
            6
        } else if str_eq(format, "jxl") {
            4
        } else {
            5
        }
    }
}


proof fn lemma_format_names()
    ensures
        "png"@.len() == 3 && "png"@[0] == 'p',
        "jpg"@.len() == 3 && "jpg"@[0] == 'j' && "jpg"@[1] == 'p',
        "jpeg"@.len() == 4 && "jpeg"@[0] == 'j',
        "webp"@.len() == 4 && "webp"@[0] == 'w',
        "gif"@.len() == 3 && "gif"@[0] == 'g',
        "avif"@.len() == 4 && "avif"@[0] == 'a',
        "jxl"@.len() == 3 && "jxl"@[0] == 'j' && "jxl"@[1] == 'x',
        "heic"@.len() == 4 && "heic"@[0] == 'h',
        "bmp"@.len() == 3 && "bmp"@[0] == 'b',
        "mp4"@.len() == 3 && "mp4"@[0] == 'm',
{
    reveal_strlit("png");
    reveal_strlit("jpg");
    reveal_strlit("jpeg");
    reveal_strlit("webp");
    reveal_strlit("gif");
    reveal_strlit("avif");
    reveal_strlit("jxl");
    reveal_strlit("heic");
    reveal_strlit("bmp");
    reveal_strlit("mp4");
}

/// The automatic recommendation keeps animation: an input format that can
/// hold animation is recommended a format that can too.
pub proof fn law_auto_keeps_animation(input: Seq<char>)
    requires
        animation_spec(input),
    ensures
        animation_spec(auto_choice(input).format),
{
    lemma_format_names();
}

/// The automatic recommendation keeps transparency: an input format that
/// can hold transparency is recommended a format that can too.
pub proof fn law_auto_keeps_transparency(input: Seq<char>)
    requires
        transparency_spec(input),
    ensures
        transparency_spec(auto_choice(input).format),
{
    lemma_format_names();
}

/// The automatic recommendation never compresses worse than the input
/// format.
pub proof fn law_auto_never_less_efficient(input: Seq<char>)
    ensures
        efficiency_spec(auto_choice(input).format) >= efficiency_spec(input),
{
    lemma_format_names();
}

/// The automatic recommendation is not offered again among its own
/// alternatives.
pub proof fn law_auto_not_among_alternatives(input: Seq<char>)
    ensures
        !auto_choice(input).alternatives.contains(auto_choice(input).format),
{
    lemma_format_names();
    let r = auto_choice(input);
    assert forall|i: int| 0 <= i < r.alternatives.len() implies r.alternatives[i] != r.format by {
        assert(r.alternatives[i].len() != r.format.len() || r.alternatives[i][0] != r.format[0]);
    }
}

/// A user's choice is what gets recommended, risky or not.
pub proof fn law_user_choice_is_kept(input: Seq<char>, target: Seq<char>)
    ensures
        user_choice(input, target).format == target,
{
}

/// The capability tables agree with the supported-format table on
/// animation and on lossless (transparent) storage.
pub proof fn law_capabilities_match_formats(f: SupportedFormat)
    ensures
        animation_spec(f.ext_spec()) == f.animation_spec(),
        transparency_spec(f.ext_spec()) == f.lossless_spec(),
{
    lemma_format_names();
}


/// How a reason names a recommended format.
pub open spec fn shown_name(f: Seq<char>) -> Seq<char> {
    if f == "avif"@ {
        "AVIF"@
    } else if f == "jxl"@ {
        "JXL"@
    } else if f == "webp"@ {
        "WebP"@
    } else {
        f
    }
}

/// The reason of an automatic recommendation names the format it
/// recommends.
pub proof fn law_auto_reason_names_format(input: Seq<char>)
    ensures
        has_sub(auto_choice(input).reason, shown_name(auto_choice(input).format)),
{
    lemma_format_names();
    let r = auto_choice(input);
    if input == "png"@ {
        reveal_strlit("PNG→AVIF: 最佳压缩率（60-80%），保留透明度");
        reveal_strlit("AVIF");
        assert(r.reason.subrange(4, 8) =~= "AVIF"@);
        assert(occurs_at(r.reason, shown_name(r.format), 4));
    } else if is_jpeg_name(input) {
        reveal_strlit("JPEG→JXL: 无损重新包装（减小20-30%），无质量损失");
        reveal_strlit("JXL");
        assert(r.reason.subrange(5, 8) =~= "JXL"@);
        assert(occurs_at(r.reason, shown_name(r.format), 5));
    } else if input == "webp"@ {
        reveal_strlit("WebP→AVIF: 更好的压缩率（20-40%）");
        reveal_strlit("AVIF");
        assert(r.reason.subrange(5, 9) =~= "AVIF"@);
        assert(occurs_at(r.reason, shown_name(r.format), 5));
    } else if input == "gif"@ {
        reveal_strlit("GIF→WebP: 保留动画，大幅减小文件（70-90%）");
        reveal_strlit("WebP");
        assert(r.reason.subrange(4, 8) =~= "WebP"@);
        assert(occurs_at(r.reason, shown_name(r.format), 4));
    } else if input == "avif"@ {
        reveal_strlit("AVIF已经是最佳格式，建议保持或优化参数");
        reveal_strlit("AVIF");
        assert(r.reason.subrange(0, 4) =~= "AVIF"@);
        assert(occurs_at(r.reason, shown_name(r.format), 0));
    } else if input == "jxl"@ {
        reveal_strlit("JXL已经是最佳格式，建议保持或优化参数");
        reveal_strlit("JXL");
        assert(r.reason.subrange(0, 3) =~= "JXL"@);
        assert(occurs_at(r.reason, shown_name(r.format), 0));
    } else {
        reveal_strlit("'，默认推荐AVIF");
        reveal_strlit("AVIF");
        let n = r.reason.len();
        assert(r.reason.subrange(n - 4, n as int) =~= "AVIF"@);
        assert(occurs_at(r.reason, shown_name(r.format), n - 4));
    }
}


/// A risky choice is flagged with half confidence and comes with other
/// formats to try, none of them the risky target itself; a safe choice is
/// confirmed with high confidence.
pub proof fn law_risky_choice_offers_other_formats(input: Seq<char>, target: Seq<char>)
    ensures
        risk_of(input, target).0 ==> {
            let r = user_choice(input, target);
            &&& r.confidence == 500
            &&& r.alternatives.len() > 0
            &&& !r.alternatives.contains(target)
        },
        !risk_of(input, target).0 ==> user_choice(input, target).confidence == 900,
{
    lemma_format_names();
    if risk_of(input, target).0 {
        let r = user_choice(input, target);
        assert forall|i: int| 0 <= i < r.alternatives.len() implies r.alternatives[i] != target by {
            assert(r.alternatives[i].len() != target.len() || r.alternatives[i][0] != target[0] || r.alternatives[i][1]
                != target[1]);
        }
    }
}

} // verus!
