//! Merging an XMP sidecar into a converted image, as a sequence of steps.
//!
//! The caller performs each step (looking at the file system, running
//! exiftool, deleting the sidecar) and reports what happened; the merge
//! decides the next step and what is printed. The sidecar is kept unless
//! the merge ran successfully and the merged data was found in the output.
//! A failure to read a file's size ends the merge with that error, as the
//! caller's own `?` does; every other problem only leaves the sidecar in
//! place.

use vstd::prelude::*;
use crate::conversion_core::{xmp_data_verified, xmp_listing_ok};
use crate::text::{concat2, owned, with_number, dec};

verus! {

/// The step the caller performs next.
#[derive(Debug, Clone, Copy, PartialEq, Eq, Structural)]
pub enum XmpMergeStep {
    /// Whether the sidecar exists.
    CheckSidecar,
    /// Whether the sidecar's metadata can be read.
    CheckReadable,
    /// Whether the output exists.
    CheckOutput,
    /// The output's size before the merge.
    ReadSizeBefore,
    /// `exiftool -tagsFromFile <sidecar> -XMP:all -overwrite_original <output>`.
    RunMerge,
    /// The output's size after the merge.
    ReadSizeAfter,
    /// `exiftool -XMP:all <output>`.
    RunVerify,
    /// Remove the sidecar.
    DeleteSidecar,
    /// Nothing more.
    Done,
}

/// How the merge command ended.
#[derive(Debug, Clone)]
pub enum MergeRun {
    /// It could not be started; the error as displayed.
    CouldNotStart(String),
    /// It ran; whether it succeeded, and its error output as text.
    Exited { success: bool, stderr: String },
}

/// What the caller found when performing a step.
#[derive(Debug)]
pub enum XmpEvent {
    SidecarExists(bool),
    /// The metadata read, or its error as displayed.
    SidecarReadable(Result<(), String>),
    OutputExists(bool),
    SizeBefore(u64),
    MergeFinished(MergeRun),
    SizeAfter(u64),
    /// The verification listing where exiftool ran successfully, else nothing.
    VerifyFinished(Option<String>),
    /// The removal, or its error as displayed.
    SidecarDeleted(Result<(), String>),
}

/// A line to print, on the error stream or on standard output.
#[derive(Debug, Clone)]
pub struct Note {
    pub to_stderr: bool,
    pub text: String,
}

/// How the paths appear in messages: the sidecar's and the output's file
/// names and the sidecar's path, each in its `Debug` form.
#[derive(Debug, Clone)]
pub struct XmpNames {
    pub sidecar_name: String,
    pub output_name: String,
    pub sidecar_path: String,
}

/// Whether an event reports the outcome of a step.
pub open spec fn answers(step: XmpMergeStep, e: XmpEvent) -> bool {
    match step {
        XmpMergeStep::CheckSidecar => e is SidecarExists,
        XmpMergeStep::CheckReadable => e is SidecarReadable,
        XmpMergeStep::CheckOutput => e is OutputExists,
        XmpMergeStep::ReadSizeBefore => e is SizeBefore,
        XmpMergeStep::RunMerge => e is MergeFinished,
        XmpMergeStep::ReadSizeAfter => e is SizeAfter,
        XmpMergeStep::RunVerify => e is VerifyFinished,
        XmpMergeStep::DeleteSidecar => e is SidecarDeleted,
        XmpMergeStep::Done => false,
    }
}

/// The step after an event.
pub open spec fn next_step(step: XmpMergeStep, e: XmpEvent) -> XmpMergeStep {
    match e {
        XmpEvent::SidecarExists(b) => if b { XmpMergeStep::CheckReadable } else { XmpMergeStep::Done },
        XmpEvent::SidecarReadable(r) => if r is Ok { XmpMergeStep::CheckOutput } else { XmpMergeStep::Done },
        XmpEvent::OutputExists(b) => if b { XmpMergeStep::ReadSizeBefore } else { XmpMergeStep::Done },
        XmpEvent::SizeBefore(_) => XmpMergeStep::RunMerge,
        XmpEvent::MergeFinished(m) => match m {
            MergeRun::Exited { success, .. } => if success {
                XmpMergeStep::ReadSizeAfter
            } else {
                XmpMergeStep::Done
            },
            MergeRun::CouldNotStart(_) => XmpMergeStep::Done,
        },
        XmpEvent::SizeAfter(_) => XmpMergeStep::RunVerify,
        XmpEvent::VerifyFinished(l) => match l {
            Some(s) => if xmp_listing_ok(s@) { XmpMergeStep::DeleteSidecar } else { XmpMergeStep::Done },
            None => XmpMergeStep::Done,
        },
        XmpEvent::SidecarDeleted(_) => XmpMergeStep::Done,
    }
}

/// How many steps are left at most.
pub open spec fn steps_left(step: XmpMergeStep) -> nat {
    match step {
        XmpMergeStep::CheckSidecar => 8,
        XmpMergeStep::CheckReadable => 7,
        XmpMergeStep::CheckOutput => 6,
        XmpMergeStep::ReadSizeBefore => 5,
        XmpMergeStep::RunMerge => 4,
        XmpMergeStep::ReadSizeAfter => 3,
        XmpMergeStep::RunVerify => 2,
        XmpMergeStep::DeleteSidecar => 1,
        XmpMergeStep::Done => 0,
    }
}

/// The text of the notes.
pub open spec fn note_texts(v: Seq<Note>) -> Seq<(bool, Seq<char>)> {
    v.map_values(|n: Note| (n.to_stderr, n.text@))
}

/// What is printed after an event, given the names in messages and the
/// output's size before the merge.
pub open spec fn notes_spec(names: XmpNames, before: u64, e: XmpEvent) -> Seq<(bool, Seq<char>)> {
    match e {
        XmpEvent::SidecarExists(_) => seq![],
        XmpEvent::SidecarReadable(r) => match r {
            Err(m) => seq![(true, "⚠️ XMP file exists but not readable: "@ + m@)],
            Ok(_) => seq![(false, "📄 Found XMP sidecar: "@ + names.sidecar_name@)],
        },
        XmpEvent::OutputExists(b) => if b {
            seq![]
        } else {
            seq![(true, "⚠️ Output file doesn't exist yet, skipping XMP merge"@)]
        },
        XmpEvent::SizeBefore(_) => seq![],
        XmpEvent::MergeFinished(m) => match m {
            MergeRun::Exited { success, stderr } => if success {
                seq![(false, "✅ XMP merged into output file: "@ + names.output_name@)]
            } else {
                seq![
                    (true, "❌ XMP merge failed: "@ + stderr@),
                    (true, "⚠️ Keeping original XMP sidecar: "@ + names.sidecar_path@),
                ]
            },
            MergeRun::CouldNotStart(err) => seq![
                (true, "❌ Cannot execute exiftool: "@ + err@),
                (true, "💡 Install exiftool: brew install exiftool"@),
                (true, "⚠️ Keeping original XMP sidecar: "@ + names.sidecar_path@),
            ],
        },
        XmpEvent::SizeAfter(after) => if after <= before {
            seq![
                (true, "⚠️ Warning: Output file size didn't increase after XMP merge"@),
                (true, "   Before: "@ + dec(before as nat) + " bytes, After: "@ + dec(after as nat) + " bytes"@),
            ]
        } else {
            seq![]
        },
        XmpEvent::VerifyFinished(l) => if (l matches Some(s) && xmp_listing_ok(s@)) {
            seq![(false, "✅ XMP data verified in output file"@)]
        } else {
            seq![
                (true, "⚠️ Warning: Could not verify XMP data in output file"@),
                (true, "⚠️ Keeping original XMP sidecar for safety: "@ + names.sidecar_path@),
            ]
        },
        XmpEvent::SidecarDeleted(r) => match r {
            Err(m) => seq![(true, "⚠️ Failed to delete original XMP: "@ + m@)],
            Ok(_) => seq![(false, "🗑️ Original XMP sidecar deleted"@)],
        },
    }
}

/// A merge in progress.
pub struct XmpMerge {
    step: XmpMergeStep,
    size_before: u64,
    names: XmpNames,
}

fn note(to_stderr: bool, text: String) -> (res: Note)
    ensures
        res.to_stderr == to_stderr,
        res.text@ == text@,
{
    Note { to_stderr, text }
}

impl XmpMerge {
    /// The step to perform next.
    pub closed spec fn spec_step(&self) -> XmpMergeStep {
        self.step
    }

    /// The output's size before the merge, once read.
    pub closed spec fn spec_size_before(&self) -> u64 {
        self.size_before
    }

    /// How paths appear in messages.
    pub closed spec fn spec_names(&self) -> XmpNames {
        self.names
    }

    /// A merge about to check for the sidecar.
    pub fn start(names: XmpNames) -> (res: Self)
        ensures
            res.spec_step() == XmpMergeStep::CheckSidecar,
            res.spec_names() == names,
    {
        XmpMerge { step: XmpMergeStep::CheckSidecar, size_before: 0, names }
    }

    /// The step to perform next.
    pub fn step(&self) -> (res: XmpMergeStep)
        ensures
            res == self.spec_step(),
    {
        self.step
    }

    /// Takes in what the current step found; gives the lines to print.
    pub fn advance(&mut self, event: XmpEvent) -> (res: Vec<Note>)
        requires
            answers(old(self).spec_step(), event),
        ensures
            final(self).spec_step() == next_step(old(self).spec_step(), event),
            final(self).spec_names() == old(self).spec_names(),
            event matches XmpEvent::SizeBefore(b) ==> final(self).spec_size_before() == b,
            !(event is SizeBefore) ==> final(self).spec_size_before() == old(self).spec_size_before(),
            note_texts(res@) == notes_spec(old(self).spec_names(), old(self).spec_size_before(), event),
    {
        let mut out: Vec<Note> = Vec::new();
        match event {
            XmpEvent::SidecarExists(b) => {
                self.step = if b { XmpMergeStep::CheckReadable } else { XmpMergeStep::Done };
            },
            XmpEvent::SidecarReadable(r) => match r {
                Err(m) => {
                    out.push(note(true, concat2("⚠️ XMP file exists but not readable: ", m.as_str())));
                    self.step = XmpMergeStep::Done;
                },
                Ok(_) => {
                    out.push(note(false, concat2("📄 Found XMP sidecar: ", self.names.sidecar_name.as_str())));
                    self.step = XmpMergeStep::CheckOutput;
                },
            },
            XmpEvent::OutputExists(b) => {
                if b {
                    self.step = XmpMergeStep::ReadSizeBefore;
                } else {
                    out.push(note(true, owned("⚠️ Output file doesn't exist yet, skipping XMP merge")));
                    self.step = XmpMergeStep::Done;
                }
            },
            XmpEvent::SizeBefore(b) => {
                self.size_before = b;
                self.step = XmpMergeStep::RunMerge;
            },
            XmpEvent::MergeFinished(m) => match m {
                MergeRun::Exited { success, stderr } => {
                    if success {
                        out.push(note(false, concat2("✅ XMP merged into output file: ", self.names.output_name.as_str())));
                        self.step = XmpMergeStep::ReadSizeAfter;
                    } else {
                        out.push(note(true, concat2("❌ XMP merge failed: ", stderr.as_str())));
                        out.push(note(true, concat2("⚠️ Keeping original XMP sidecar: ", self.names.sidecar_path.as_str())));
                        self.step = XmpMergeStep::Done;
                    }
                },
                MergeRun::CouldNotStart(err) => {
                    out.push(note(true, concat2("❌ Cannot execute exiftool: ", err.as_str())));
                    out.push(note(true, owned("💡 Install exiftool: brew install exiftool")));
                    out.push(note(true, concat2("⚠️ Keeping original XMP sidecar: ", self.names.sidecar_path.as_str())));
                    self.step = XmpMergeStep::Done;
                },
            },
            XmpEvent::SizeAfter(after) => {
                if after <= self.size_before {
                    out.push(note(true, owned("⚠️ Warning: Output file size didn't increase after XMP merge")));
                    let mut line = with_number("   Before: ", self.size_before, " bytes, After: ");
                    crate::text::push_decimal(&mut line, after);
                    line.append(" bytes");
                    out.push(note(true, line));
                }
                self.step = XmpMergeStep::RunVerify;
            },
            XmpEvent::VerifyFinished(l) => {
                let ok = match &l {
                    Some(s) => xmp_data_verified(s.as_str()),
                    None => false,
                };
                if ok {
                    out.push(note(false, owned("✅ XMP data verified in output file")));
                    self.step = XmpMergeStep::DeleteSidecar;
                } else {
                    out.push(note(true, owned("⚠️ Warning: Could not verify XMP data in output file")));
                    out.push(
                        note(true, concat2("⚠️ Keeping original XMP sidecar for safety: ", self.names.sidecar_path.as_str())),
                    );
                    self.step = XmpMergeStep::Done;
                }
            },
            XmpEvent::SidecarDeleted(r) => {
                match r {
                    Err(m) => out.push(note(true, concat2("⚠️ Failed to delete original XMP: ", m.as_str()))),
                    Ok(_) => out.push(note(false, owned("🗑️ Original XMP sidecar deleted"))),
                }
                self.step = XmpMergeStep::Done;
            },
        }
        assert(note_texts(out@) =~= notes_spec(old(self).spec_names(), old(self).spec_size_before(), event));
        out
    }
}

/// The arguments of the merge command.
pub fn merge_args(sidecar: &str, output: &str) -> (res: Vec<String>)
    ensures
        res@.map_values(|s: String| s@) == seq!["-tagsFromFile"@, sidecar@, "-XMP:all"@, "-overwrite_original"@, output@],
{
    let v = vec![owned("-tagsFromFile"), owned(sidecar), owned("-XMP:all"), owned("-overwrite_original"), owned(output)];
    assert(v@.map_values(|s: String| s@) =~= seq!["-tagsFromFile"@, sidecar@, "-XMP:all"@, "-overwrite_original"@, output@]);
    v
}

/// The arguments of the verification command.
pub fn verify_args(output: &str) -> (res: Vec<String>)
    ensures
        res@.map_values(|s: String| s@) == seq!["-XMP:all"@, output@],
{
    let v = vec![owned("-XMP:all"), owned(output)];
    assert(v@.map_values(|s: String| s@) =~= seq!["-XMP:all"@, output@]);
    v
}

/// The sidecar is removed only right after the verification listing showed
/// the merged data, which happens only after the merge command succeeded.
pub proof fn law_sidecar_removed_only_after_verified_merge(step: XmpMergeStep, e: XmpEvent)
    requires
        answers(step, e),
    ensures
        next_step(step, e) == XmpMergeStep::DeleteSidecar ==> step == XmpMergeStep::RunVerify && (e matches XmpEvent::VerifyFinished(
            Some(l),
        ) && xmp_listing_ok(l@)),
        next_step(step, e) == XmpMergeStep::ReadSizeAfter ==> step == XmpMergeStep::RunMerge && (e matches XmpEvent::MergeFinished(
            MergeRun::Exited { success: true, .. },
        )),
        next_step(step, e) == XmpMergeStep::RunVerify ==> step == XmpMergeStep::ReadSizeAfter,
{
}

/// Every step moves the merge forward, so it ends after at most eight.
pub proof fn law_merge_terminates(step: XmpMergeStep, e: XmpEvent)
    requires
        answers(step, e),
    ensures
        steps_left(next_step(step, e)) < steps_left(step),
{
}

} // verus!
