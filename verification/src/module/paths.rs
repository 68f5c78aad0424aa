//! The fixed layout of a study's directories.

use vstd::prelude::*;

use crate::module::group::GroupKind;
use crate::text::{join_path, joined};

verus! {

pub const DEV_ROOT: &'static str = "product";

pub const QC_ROOT: &'static str = "validation";

pub const RAW: &'static str = "rawdata";

pub const SDTM_PROGRAM_PATH: &'static str = "program\\sdtm";

pub const SDTM_DATASET_PATH: &'static str = "dataset\\sdtm";

pub const SDTM_QC_RESULT: &'static str = "qc-result\\sdtm";

pub const ADAM_PROGRAM_PATH: &'static str = "program\\adam";

pub const ADAM_DATASET_PATH: &'static str = "dataset\\adam";

pub const ADAM_QC_RESULT: &'static str = "qc-result\\adam";

pub const TFL_PROGRAM_PATH: &'static str = "program\\tfl";

pub const TFL_DATASET_PATH: &'static str = "dataset\\tfl";

pub const TFL_OUTPUT_PATH: &'static str = "output";

pub const TFL_QC_RESULT: &'static str = "qc-result\\tfl";

/// The folder `place` of the track `group` under the study's root.
pub open spec fn track_dir(root: Seq<char>, group: GroupKind, place: Seq<char>) -> Seq<char> {
    match group {
        GroupKind::Dev => joined(joined(root, DEV_ROOT@), place),
        GroupKind::Qc => joined(joined(root, QC_ROOT@), place),
    }
}

/// The folders of one category: programs and datasets of both tracks, and
/// the QC reports.
pub struct CategoryDirs {
    pub program: (Seq<char>, Seq<char>),
    pub dataset: (Seq<char>, Seq<char>),
    pub qc: Seq<char>,
}

/// The folders of a category whose programs, datasets and QC reports lie
/// under the given places of each track.
pub open spec fn category_dirs(
    root: Seq<char>,
    program: Seq<char>,
    dataset: Seq<char>,
    qc: Seq<char>,
) -> CategoryDirs {
    CategoryDirs {
        program: (track_dir(root, GroupKind::Dev, program), track_dir(root, GroupKind::Qc, program)),
        dataset: (track_dir(root, GroupKind::Dev, dataset), track_dir(root, GroupKind::Qc, dataset)),
        qc: track_dir(root, GroupKind::Qc, qc),
    }
}

/// The folders of the SDTM domains. In each pair the first is production's
/// and the second validation's.
#[derive(Debug)]
pub struct SDTM {
    program: (String, String),
    dataset: (String, String),
    qc: String,
}

impl View for SDTM {
    type V = CategoryDirs;

    closed spec fn view(&self) -> CategoryDirs {
        CategoryDirs {
            program: (self.program.0@, self.program.1@),
            dataset: (self.dataset.0@, self.dataset.1@),
            qc: self.qc@,
        }
    }
}

impl SDTM {
    pub fn new(root: &str) -> (r: SDTM)
        ensures
            r@ == category_dirs(root@, SDTM_PROGRAM_PATH@, SDTM_DATASET_PATH@, SDTM_QC_RESULT@),
    {
        let dev_root = join_path(root, DEV_ROOT);
        let qc_root = join_path(root, QC_ROOT);
        SDTM {
            program: (
                join_path(dev_root.as_str(), SDTM_PROGRAM_PATH),
                join_path(qc_root.as_str(), SDTM_PROGRAM_PATH),
            ),
            dataset: (
                join_path(dev_root.as_str(), SDTM_DATASET_PATH),
                join_path(qc_root.as_str(), SDTM_DATASET_PATH),
            ),
            qc: join_path(qc_root.as_str(), SDTM_QC_RESULT),
        }
    }
}

/// The folders of the ADaM datasets.
#[derive(Debug)]
pub struct ADaM {
    program: (String, String),
    dataset: (String, String),
    qc: String,
}

impl View for ADaM {
    type V = CategoryDirs;

    closed spec fn view(&self) -> CategoryDirs {
        CategoryDirs {
            program: (self.program.0@, self.program.1@),
            dataset: (self.dataset.0@, self.dataset.1@),
            qc: self.qc@,
        }
    }
}

impl ADaM {
    pub fn new(root: &str) -> (r: ADaM)
        ensures
            r@ == category_dirs(root@, ADAM_PROGRAM_PATH@, ADAM_DATASET_PATH@, ADAM_QC_RESULT@),
    {
        let dev_root = join_path(root, DEV_ROOT);
        let qc_root = join_path(root, QC_ROOT);
        ADaM {
            program: (
                join_path(dev_root.as_str(), ADAM_PROGRAM_PATH),
                join_path(qc_root.as_str(), ADAM_PROGRAM_PATH),
            ),
            dataset: (
                join_path(dev_root.as_str(), ADAM_DATASET_PATH),
                join_path(qc_root.as_str(), ADAM_DATASET_PATH),
            ),
            qc: join_path(qc_root.as_str(), ADAM_QC_RESULT),
        }
    }
}

/// The folders of the tables, figures and listings, which have a folder
/// for the outputs besides.
pub struct OutputDirs {
    pub dirs: CategoryDirs,
    pub output: Seq<char>,
}

/// The folders of the tables, figures and listings.
#[derive(Debug)]
pub struct TFLs {
    program: (String, String),
    dataset: (String, String),
    output: String,
    qc: String,
}

impl View for TFLs {
    type V = OutputDirs;

    closed spec fn view(&self) -> OutputDirs {
        OutputDirs {
            dirs: CategoryDirs {
                program: (self.program.0@, self.program.1@),
                dataset: (self.dataset.0@, self.dataset.1@),
                qc: self.qc@,
            },
            output: self.output@,
        }
    }
}

impl TFLs {
    pub fn new(root: &str) -> (r: TFLs)
        ensures
            r@.dirs == category_dirs(root@, TFL_PROGRAM_PATH@, TFL_DATASET_PATH@, TFL_QC_RESULT@),
            r@.output == track_dir(root@, GroupKind::Dev, TFL_OUTPUT_PATH@),
    {
        let dev_root = join_path(root, DEV_ROOT);
        let qc_root = join_path(root, QC_ROOT);
        TFLs {
            program: (
                join_path(dev_root.as_str(), TFL_PROGRAM_PATH),
                join_path(qc_root.as_str(), TFL_PROGRAM_PATH),
            ),
            dataset: (
                join_path(dev_root.as_str(), TFL_DATASET_PATH),
                join_path(qc_root.as_str(), TFL_DATASET_PATH),
            ),
            output: join_path(dev_root.as_str(), TFL_OUTPUT_PATH),
            qc: join_path(qc_root.as_str(), TFL_QC_RESULT),
        }
    }
}

/// All folders of a study.
#[derive(Debug)]
pub struct Paths {
    raw: String,
    sdtm: SDTM,
    adam: ADaM,
    tfls: TFLs,
}

/// The mathematical content of [`Paths`].
pub struct PathsView {
    pub raw: Seq<char>,
    pub sdtm: CategoryDirs,
    pub adam: CategoryDirs,
    pub tfls: OutputDirs,
}

/// One of a pair of folders: the first for production, the second for
/// validation.
pub open spec fn of_track(pair: (Seq<char>, Seq<char>), kind: GroupKind) -> Seq<char> {
    match kind {
        GroupKind::Dev => pair.0,
        GroupKind::Qc => pair.1,
    }
}

/// The layout of the study under `root`.
pub open spec fn layout(root: Seq<char>) -> PathsView {
    PathsView {
        raw: joined(root, RAW@),
        sdtm: category_dirs(root, SDTM_PROGRAM_PATH@, SDTM_DATASET_PATH@, SDTM_QC_RESULT@),
        adam: category_dirs(root, ADAM_PROGRAM_PATH@, ADAM_DATASET_PATH@, ADAM_QC_RESULT@),
        tfls: OutputDirs {
            dirs: category_dirs(root, TFL_PROGRAM_PATH@, TFL_DATASET_PATH@, TFL_QC_RESULT@),
            output: track_dir(root, GroupKind::Dev, TFL_OUTPUT_PATH@),
        },
    }
}

impl View for Paths {
    type V = PathsView;

    closed spec fn view(&self) -> PathsView {
        PathsView { raw: self.raw@, sdtm: self.sdtm@, adam: self.adam@, tfls: self.tfls@ }
    }
}

impl Paths {
    /// The folders of the study under `root`.
    pub fn new(root: &str) -> (p: Paths)
        ensures
            p@ == layout(root@),
    {
        Paths {
            raw: join_path(root, RAW),
            sdtm: SDTM::new(root),
            adam: ADaM::new(root),
            tfls: TFLs::new(root),
        }
    }

    pub fn raw(&self) -> (r: &str)
        ensures
            r@ == self@.raw,
    {
        self.raw.as_str()
    }

    pub fn sdtm_code(&self, kind: GroupKind) -> (r: &str)
        ensures
            r@ == of_track(self@.sdtm.program, kind),
    {
        match kind {
            GroupKind::Dev => self.sdtm.program.0.as_str(),
            GroupKind::Qc => self.sdtm.program.1.as_str(),
        }
    }

    pub fn sdtm_dataset(&self, kind: GroupKind) -> (r: &str)
        ensures
            r@ == of_track(self@.sdtm.dataset, kind),
    {
        match kind {
            GroupKind::Dev => self.sdtm.dataset.0.as_str(),
            GroupKind::Qc => self.sdtm.dataset.1.as_str(),
        }
    }

    pub fn sdtm_qc(&self) -> (r: &str)
        ensures
            r@ == self@.sdtm.qc,
    {
        self.sdtm.qc.as_str()
    }

    pub fn adam_code(&self, kind: GroupKind) -> (r: &str)
        ensures
            r@ == of_track(self@.adam.program, kind),
    {
        match kind {
            GroupKind::Dev => self.adam.program.0.as_str(),
            GroupKind::Qc => self.adam.program.1.as_str(),
        }
    }

    pub fn adam_dataset(&self, kind: GroupKind) -> (r: &str)
        ensures
            r@ == of_track(self@.adam.dataset, kind),
    {
        match kind {
            GroupKind::Dev => self.adam.dataset.0.as_str(),
            GroupKind::Qc => self.adam.dataset.1.as_str(),
        }
    }

    pub fn adam_qc(&self) -> (r: &str)
        ensures
            r@ == self@.adam.qc,
    {
        self.adam.qc.as_str()
    }

    pub fn tfls_code(&self, kind: GroupKind) -> (r: &str)
        ensures
            r@ == of_track(self@.tfls.dirs.program, kind),
    {
        match kind {
            GroupKind::Dev => self.tfls.program.0.as_str(),
            GroupKind::Qc => self.tfls.program.1.as_str(),
        }
    }

    pub fn tfls_dataset(&self, kind: GroupKind) -> (r: &str)
        ensures
            r@ == of_track(self@.tfls.dirs.dataset, kind),
    {
        match kind {
            GroupKind::Dev => self.tfls.dataset.0.as_str(),
            GroupKind::Qc => self.tfls.dataset.1.as_str(),
        }
    }

    pub fn tfls_output(&self) -> (r: &str)
        ensures
            r@ == self@.tfls.output,
    {
        self.tfls.output.as_str()
    }

    pub fn tfls_qc(&self) -> (r: &str)
        ensures
            r@ == self@.tfls.dirs.qc,
    {
        self.tfls.qc.as_str()
    }
}

} // verus!
