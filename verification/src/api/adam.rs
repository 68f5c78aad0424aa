//! The report on the ADaM datasets of a study.

use vstd::prelude::*;

use crate::adam::inspect::{production_roles, validation_roles, Inspector, InspectorView};
use crate::adam::spec::{read_spec, spec_of};
use crate::api::module::{module_report, report_module, Module, Plan, ShownItem};
use crate::error::InspectError;
use crate::module::file::FileKind;
use crate::module::paths::{layout, Paths};
use crate::sheet::Workbook;
use crate::track::{sources_of, watermark_of, Role, Scan};

verus! {

/// The files of the validation track that the report lists: program,
/// dataset, log, QC report.
pub open spec fn shown_validation_roles() -> Seq<Role> {
    validation_roles().push(Role { kind: FileKind::QcResult, supp: false })
}

/// By what the report on the ADaM datasets is drawn.
pub open spec fn plan() -> Plan {
    Plan {
        dev: production_roles(),
        qc: shown_validation_roles(),
    }
}

/// The report on the datasets of a catalog.
pub open spec fn report_of(specs: Seq<Seq<char>>, root: Seq<char>, scan: Scan) -> Seq<ShownItem> {
    module_report(
        (InspectorView {
            specs,
            paths: layout(root),
            latest_sdtm_data: watermark_of(scan),
            sources: sources_of(scan, true),
        }).items(),
        plan(),
        true,
    )
}

/// Audits the ADaM datasets that the specification lists against what was
/// seen in the folders of the study under `root`, and reports on each:
/// its two tracks and the timeline of its files, under its name in upper
/// case. Fails when the specification cannot be read.
pub fn inspect_adam(spec: &Workbook, root: &str, scan: Scan) -> (r: Result<Module, InspectError>)
    ensures
        r is Ok <==> spec_of(spec@) is Ok,
        r matches Ok(m) ==> m@ == report_of(spec_of(spec@)->Ok_0, root@, scan),
        r matches Err(e) ==> spec_of(spec@) == Err::<Seq<Seq<char>>, InspectError>(e),
{
    let paths = Paths::new(root);
    let specs = match read_spec(spec) {
        Ok(specs) => specs,
        Err(e) => {
            return Err(e);
        },
    };
    let inspector = Inspector::new(specs, paths, scan);
    let m = match inspector.module() {
        Ok(m) => m,
        Err(e) => {
            return Err(e);
        },
    };
    let dev = Inspector::dev_roles();
    let mut qc = Inspector::qc_roles();
    qc.push(Role { kind: FileKind::QcResult, supp: false });
    Ok(report_module(&m, &dev, &qc, true))
}

} // verus!
