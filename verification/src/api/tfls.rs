//! The report on the tables, figures and listings of a study.

use vstd::prelude::*;

use crate::api::module::{module_report, report_module, Module, Plan, ShownItem};
use crate::error::InspectError;
use crate::module::file::FileKind;
use crate::module::paths::{layout, Paths};
use crate::sheet::Workbook;
use crate::tfls::inspect::{production_roles, Inspector, InspectorView};
use crate::tfls::top::{read_top, top_of};
use crate::track::{sources_of, watermark_of, Role, Scan};

verus! {

/// The files of the validation track that the report lists: program,
/// dataset, QC report, log.
pub open spec fn shown_validation_roles() -> Seq<Role> {
    seq![
        Role { kind: FileKind::SasCode, supp: false },
        Role { kind: FileKind::SasData, supp: false },
        Role { kind: FileKind::QcResult, supp: false },
        Role { kind: FileKind::SasLog, supp: false },
    ]
}

/// By what the report on the outputs is drawn.
pub open spec fn plan() -> Plan {
    Plan {
        dev: production_roles(),
        qc: shown_validation_roles(),
    }
}

/// The report on the outputs of a catalog.
pub open spec fn report_of(tops: Seq<(Seq<char>, bool)>, root: Seq<char>, scan: Scan) -> Seq<
    ShownItem,
> {
    module_report(
        (InspectorView {
            tops,
            paths: layout(root),
            latest_adam_data: watermark_of(scan),
            sources: sources_of(scan, false),
        }).items(),
        plan(),
        false,
    )
}

/// Audits the outputs that the table of planned outputs lists against
/// what was seen in the folders of the study under `root`, and reports on
/// each: its two tracks and the timeline of its files. Fails when the
/// table cannot be read.
pub fn inspect_tfls(top: &Workbook, root: &str, scan: Scan) -> (r: Result<Module, InspectError>)
    ensures
        r is Ok <==> top_of(top@) is Ok,
        r matches Ok(m) ==> m@ == report_of(top_of(top@)->Ok_0, root@, scan),
        r matches Err(e) ==> top_of(top@) == Err::<Seq<(Seq<char>, bool)>, InspectError>(e),
{
    let paths = Paths::new(root);
    let tops = match read_top(top) {
        Ok(tops) => tops,
        Err(e) => {
            return Err(e);
        },
    };
    let inspector = Inspector::new(tops, paths, scan);
    let m = match inspector.module() {
        Ok(m) => m,
        Err(e) => {
            return Err(e);
        },
    };
    let dev = Inspector::dev_roles();
    let mut qc: Vec<Role> = Vec::new();
    qc.push(Role { kind: FileKind::SasCode, supp: false });
    qc.push(Role { kind: FileKind::SasData, supp: false });
    qc.push(Role { kind: FileKind::QcResult, supp: false });
    qc.push(Role { kind: FileKind::SasLog, supp: false });
    proof {
        assert(qc@ =~= shown_validation_roles());
    }
    Ok(report_module(&m, &dev, &qc, false))
}

} // verus!
