//! Vendor identities.
//!
//! Device and processor descriptions name their maker in many spellings. The
//! vendor table maps a telling substring to the maker's usual name and home
//! page; a description belongs to the first entry whose substring it holds.

use vstd::prelude::*;
use crate::base::classify::{lookup, spec_lookup, Entry, Rule};

verus! {

/// A vendor: the substring that gives it away, its name and its home page.
#[derive(Debug, Clone)]
pub struct Vendor {
    pub id: &'static str,
    pub name: &'static str,
    pub url: &'static str,
}

impl Vendor {
    #[must_use]
    pub fn new(id: &'static str, name: &'static str, url: &'static str) -> (v: Self)
        ensures
            v == (Vendor { id, name, url }),
    {
        Self { id, name, url }
    }
}

impl Entry for Vendor {
    open spec fn matcher(&self) -> Seq<char> {
        self.id@
    }

    fn matcher_str(&self) -> (m: &str) {
        self.id
    }
}

/// The vendor table: hardware makers, then BIOS makers, then the vendor
/// strings of x86 processors and of hypervisors. Earlier entries take
/// precedence.
pub open spec fn spec_vendor_list() -> Seq<Vendor> {
    seq![
        Vendor { id: "ATI", name: "ATI Technologies", url: "https://www.amd.com" },
        Vendor { id: "nVidia", name: "nVidia", url: "https://www.nvidia.com" },
        Vendor { id: "NVidia", name: "nVidia", url: "https://www.nvidia.com" },
        Vendor { id: "3Com", name: "3Com", url: "https://www.hpe.com" },
        Vendor { id: "Intel", name: "Intel", url: "https://www.intel.com" },
        Vendor { id: "Cirrus Logic", name: "Cirrus Logic", url: "https://www.cirrus.com" },
        Vendor { id: "VIA Technologies", name: "VIA Technologies", url: "https://www.viatech.com" },
        Vendor { id: "VIA", name: "VIA Technologies", url: "https://www.viatech.com" },
        Vendor { id: "hp", name: "Hewlett-Packard", url: "www.hp.com" },
        Vendor { id: "NEC Corporation", name: "NEC Coporation", url: "https://www.nec.com" },
        Vendor { id: "MAXTOR", name: "MAXTOR", url: "https://www.seagate.com" },
        Vendor { id: "SAMSUNG", name: "SAMSUNG", url: "https://www.samsung.com" },
        Vendor { id: "PIONEER", name: "PIONEER", url: "https://www.pioneer.eur" },
        Vendor { id: "PLEXTOR", name: "PLEXTOR", url: "https://www.goplextor.com" },
        Vendor { id: "Realtek Semiconductor", name: "Realtek", url: "www.realtek.com.tw" },
        Vendor { id: "TOSHIBA", name: "TOSHIBA", url: "https://www.toshiba.com" },
        Vendor { id: "LITE-ON", name: "LITE-ON", url: "https://www.liteon.com" },
        Vendor { id: "WDC", name: "Western Digital", url: "https://www.westerndigital.com" },
        Vendor { id: "HL-DT-ST", name: "LG Electronics", url: "https://www.lg.com" },
        Vendor { id: "ST", name: "SEAGATE", url: "https://www.seagate.com" },
        Vendor { id: "Lexmark", name: "Lexmark", url: "https://www.lexmark.com" },
        Vendor { id: "_NEC", name: "NEC Corporation", url: "https://www.necam.com" },
        Vendor { id: "Creative Labs", name: "Creative Labs", url: "https://creative.com" },
        Vendor { id: "Brooktree", name: "Conexant", url: "https://www.synaptics.com" },
        Vendor { id: "Atheros", name: "Atheros Communications", url: "https://www.qualcomm.com" },
        Vendor { id: "MATSHITA", name: "Panasonic", url: "https://panasonic.com" },
        Vendor { id: "Silicon Image", name: "Silicon Image", url: "https://www.latticesemi.com" },
        Vendor { id: "Silicon Integrated Image", name: "Silicon Image", url: "https://www.latticesemi.com" },
        Vendor { id: "KYE", name: "KYE Systems", url: "https://global.geniusnet.com" },
        Vendor { id: "Broadcom", name: "Broadcom", url: "https://www.broadcom.com" },
        Vendor { id: "Apple", name: "Apple", url: "https://www.apple.com" },
        Vendor { id: "IBM", name: "IBM", url: "https://www.ibm.com" },
        Vendor { id: "Dell", name: "Dell Computer", url: "https://www.dell.com" },
        Vendor { id: "Logitech", name: "Logitech International", url: "https://www.logitech.com" },
        Vendor { id: "FUJITSU", name: "Fujitsu", url: "https://www.fujitsu.com" },
        Vendor { id: "CDU", name: "Sony", url: "https://www.sony.com" },
        Vendor { id: "SanDisk", name: "SanDisk", url: "https://www.westerndigital.com" },
        Vendor { id: "ExcelStor", name: "ExcelStor Technology", url: "" },
        Vendor { id: "D-Link", name: "D-Link", url: "https://www.dlink.com" },
        Vendor { id: "Giga-byte", name: "Gigabyte Technology", url: "https://www.gigabyte.com" },
        Vendor { id: "Gigabyte", name: "Gigabyte Technology", url: "https://www.gigabyte.com" },
        Vendor { id: "C-Media", name: "C-Media Electronics", url: "https://www.cmedia.com.tw" },
        Vendor { id: "Avermedia", name: "AVerMedia Technologies", url: "https://www.averusa.com" },
        Vendor { id: "Philips", name: "Philips", url: "https://www.philips.com" },
        Vendor { id: "RaLink", name: "Ralink Technology", url: "https://www.mediatek.com" },
        Vendor { id: "Siemens", name: "Siemens AG", url: "https://www.siemens.com" },
        Vendor { id: "HP", name: "Hewlett-Packard", url: "www.hp.com" },
        Vendor { id: "Hewlett-Packard", name: "Hewlett-Packard", url: "www.hp.com" },
        Vendor { id: "TEAC", name: "TEAC America", url: "https://www.teac.co.jp" },
        Vendor { id: "Microsoft", name: "Microsoft", url: "https://www.microsoft.com" },
        Vendor { id: "Memorex", name: "Memorex Products", url: "https://www.memorex.com" },
        Vendor { id: "eMPIA", name: "eMPIA Technology", url: "https://www.empiatech.com" },
        Vendor { id: "Canon", name: "Canon", url: "https://www.canon.com" },
        Vendor { id: "A4Tech", name: "A4tech", url: "https://www.a4tech.com" },
        Vendor { id: "ALCOR", name: "Alcor", url: "https://www.alcor.org" },
        Vendor { id: "Vimicro", name: "Vimicro", url: "http://www.vimicro.com" },
        Vendor { id: "OTi", name: "Ours Technology", url: "https://www.oti.com.tw" },
        Vendor { id: "BENQ", name: "BenQ", url: "https://www.benq.com" },
        Vendor { id: "Acer", name: "Acer", url: "https://www.acer.com" },
        Vendor { id: "QUANTUM", name: "Quantum", url: "https://www.quantum.com" },
        Vendor { id: "Kingston", name: "Kingston", url: "https://www.kingston.com" },
        Vendor { id: "Chicony", name: "Chicony", url: "https://www.chicony.com" },
        Vendor { id: "Genius", name: "Genius", url: "https://genius.ru" },
        Vendor { id: "American Megatrends", name: "American Megatrends", url: "https://www.ami.com" },
        Vendor { id: "Award", name: "Award Software International", url: "https://www.award-bios.com" },
        Vendor { id: "Phoenix", name: "Phoenix Technologies", url: "https://www.phoenix.com" },
        Vendor { id: "AMDisbetter!", name: "Advanced Micro Devices", url: "https://www.amd.com" },
        Vendor { id: "AuthenticAMD", name: "Advanced Micro Devices", url: "https://www.amd.com" },
        Vendor { id: "CentaurHauls", name: "VIA (formerly Centaur Technology)", url: "https://www.via.tw" },
        Vendor { id: "CyrixInstead", name: "Cyrix", url: "https://www.amd.com" },
        Vendor { id: "GenuineIntel", name: "Intel", url: "https://www.intel.com" },
        Vendor { id: "TransmetaCPU", name: "Transmeta", url: "" },
        Vendor { id: "GenuineTMx86", name: "Transmeta", url: "" },
        Vendor { id: "Geode by NSC", name: "National Semiconductor", url: "" },
        Vendor { id: "NexGenDriven", name: "NexGen", url: "" },
        Vendor { id: "RiseRiseRise", name: "Rise Technology", url: "" },
        Vendor { id: "SiS SiS SiS", name: "Silicon Integrated Systems", url: "" },
        Vendor { id: "UMC UMC UMC", name: "United Microelectronics Corporation", url: "https://www.umc.com" },
        Vendor { id: "VIA VIA VIA", name: "VIA", url: "https://www.via.tw" },
        Vendor { id: "Vortex86 SoC", name: "DMP Electronics", url: "https://www.vortex86.com" },
        Vendor { id: "KVMKVMKVM", name: "KVM", url: "https://www.linux-kvm.org" },
        Vendor { id: "Microsoft Hv", name: "Microsoft Hyper-V", url: "https://www.microsoft.com" },
        Vendor { id: "lrpepyh vr", name: "Parallels", url: "" },
        Vendor { id: "VMwareVMware", name: "VMware", url: "https://www.vmware.com" },
        Vendor { id: "XenVMMXenVMM", name: "Xen HVM", url: "" },
    ]
}

/// The vendor table.
pub fn vendor_list() -> (table: Vec<Vendor>)
    ensures
        table@ == spec_vendor_list(),
{
    let table = vec![
        Vendor::new("ATI", "ATI Technologies", "https://www.amd.com"),
        Vendor::new("nVidia", "nVidia", "https://www.nvidia.com"),
        Vendor::new("NVidia", "nVidia", "https://www.nvidia.com"),
        Vendor::new("3Com", "3Com", "https://www.hpe.com"),
        Vendor::new("Intel", "Intel", "https://www.intel.com"),
        Vendor::new("Cirrus Logic", "Cirrus Logic", "https://www.cirrus.com"),
        Vendor::new("VIA Technologies", "VIA Technologies", "https://www.viatech.com"),
        Vendor::new("VIA", "VIA Technologies", "https://www.viatech.com"),
        Vendor::new("hp", "Hewlett-Packard", "www.hp.com"),
        Vendor::new("NEC Corporation", "NEC Coporation", "https://www.nec.com"),
        Vendor::new("MAXTOR", "MAXTOR", "https://www.seagate.com"),
        Vendor::new("SAMSUNG", "SAMSUNG", "https://www.samsung.com"),
        Vendor::new("PIONEER", "PIONEER", "https://www.pioneer.eur"),
        Vendor::new("PLEXTOR", "PLEXTOR", "https://www.goplextor.com"),
        Vendor::new("Realtek Semiconductor", "Realtek", "www.realtek.com.tw"),
        Vendor::new("TOSHIBA", "TOSHIBA", "https://www.toshiba.com"),
        Vendor::new("LITE-ON", "LITE-ON", "https://www.liteon.com"),
        Vendor::new("WDC", "Western Digital", "https://www.westerndigital.com"),
        Vendor::new("HL-DT-ST", "LG Electronics", "https://www.lg.com"),
        Vendor::new("ST", "SEAGATE", "https://www.seagate.com"),
        Vendor::new("Lexmark", "Lexmark", "https://www.lexmark.com"),
        Vendor::new("_NEC", "NEC Corporation", "https://www.necam.com"),
        Vendor::new("Creative Labs", "Creative Labs", "https://creative.com"),
        Vendor::new("Brooktree", "Conexant", "https://www.synaptics.com"),
        Vendor::new("Atheros", "Atheros Communications", "https://www.qualcomm.com"),
        Vendor::new("MATSHITA", "Panasonic", "https://panasonic.com"),
        Vendor::new("Silicon Image", "Silicon Image", "https://www.latticesemi.com"),
        Vendor::new("Silicon Integrated Image", "Silicon Image", "https://www.latticesemi.com"),
        Vendor::new("KYE", "KYE Systems", "https://global.geniusnet.com"),
        Vendor::new("Broadcom", "Broadcom", "https://www.broadcom.com"),
        Vendor::new("Apple", "Apple", "https://www.apple.com"),
        Vendor::new("IBM", "IBM", "https://www.ibm.com"),
        Vendor::new("Dell", "Dell Computer", "https://www.dell.com"),
        Vendor::new("Logitech", "Logitech International", "https://www.logitech.com"),
        Vendor::new("FUJITSU", "Fujitsu", "https://www.fujitsu.com"),
        Vendor::new("CDU", "Sony", "https://www.sony.com"),
        Vendor::new("SanDisk", "SanDisk", "https://www.westerndigital.com"),
        Vendor::new("ExcelStor", "ExcelStor Technology", ""),
        Vendor::new("D-Link", "D-Link", "https://www.dlink.com"),
        Vendor::new("Giga-byte", "Gigabyte Technology", "https://www.gigabyte.com"),
        Vendor::new("Gigabyte", "Gigabyte Technology", "https://www.gigabyte.com"),
        Vendor::new("C-Media", "C-Media Electronics", "https://www.cmedia.com.tw"),
        Vendor::new("Avermedia", "AVerMedia Technologies", "https://www.averusa.com"),
        Vendor::new("Philips", "Philips", "https://www.philips.com"),
        Vendor::new("RaLink", "Ralink Technology", "https://www.mediatek.com"),
        Vendor::new("Siemens", "Siemens AG", "https://www.siemens.com"),
        Vendor::new("HP", "Hewlett-Packard", "www.hp.com"),
        Vendor::new("Hewlett-Packard", "Hewlett-Packard", "www.hp.com"),
        Vendor::new("TEAC", "TEAC America", "https://www.teac.co.jp"),
        Vendor::new("Microsoft", "Microsoft", "https://www.microsoft.com"),
        Vendor::new("Memorex", "Memorex Products", "https://www.memorex.com"),
        Vendor::new("eMPIA", "eMPIA Technology", "https://www.empiatech.com"),
        Vendor::new("Canon", "Canon", "https://www.canon.com"),
        Vendor::new("A4Tech", "A4tech", "https://www.a4tech.com"),
        Vendor::new("ALCOR", "Alcor", "https://www.alcor.org"),
        Vendor::new("Vimicro", "Vimicro", "http://www.vimicro.com"),
        Vendor::new("OTi", "Ours Technology", "https://www.oti.com.tw"),
        Vendor::new("BENQ", "BenQ", "https://www.benq.com"),
        Vendor::new("Acer", "Acer", "https://www.acer.com"),
        Vendor::new("QUANTUM", "Quantum", "https://www.quantum.com"),
        Vendor::new("Kingston", "Kingston", "https://www.kingston.com"),
        Vendor::new("Chicony", "Chicony", "https://www.chicony.com"),
        Vendor::new("Genius", "Genius", "https://genius.ru"),
        Vendor::new("American Megatrends", "American Megatrends", "https://www.ami.com"),
        Vendor::new("Award", "Award Software International", "https://www.award-bios.com"),
        Vendor::new("Phoenix", "Phoenix Technologies", "https://www.phoenix.com"),
        Vendor::new("AMDisbetter!", "Advanced Micro Devices", "https://www.amd.com"),
        Vendor::new("AuthenticAMD", "Advanced Micro Devices", "https://www.amd.com"),
        Vendor::new("CentaurHauls", "VIA (formerly Centaur Technology)", "https://www.via.tw"),
        Vendor::new("CyrixInstead", "Cyrix", "https://www.amd.com"),
        Vendor::new("GenuineIntel", "Intel", "https://www.intel.com"),
        Vendor::new("TransmetaCPU", "Transmeta", ""),
        Vendor::new("GenuineTMx86", "Transmeta", ""),
        Vendor::new("Geode by NSC", "National Semiconductor", ""),
        Vendor::new("NexGenDriven", "NexGen", ""),
        Vendor::new("RiseRiseRise", "Rise Technology", ""),
        Vendor::new("SiS SiS SiS", "Silicon Integrated Systems", ""),
        Vendor::new("UMC UMC UMC", "United Microelectronics Corporation", "https://www.umc.com"),
        Vendor::new("VIA VIA VIA", "VIA", "https://www.via.tw"),
        Vendor::new("Vortex86 SoC", "DMP Electronics", "https://www.vortex86.com"),
        Vendor::new("KVMKVMKVM", "KVM", "https://www.linux-kvm.org"),
        Vendor::new("Microsoft Hv", "Microsoft Hyper-V", "https://www.microsoft.com"),
        Vendor::new("lrpepyh vr", "Parallels", ""),
        Vendor::new("VMwareVMware", "VMware", "https://www.vmware.com"),
        Vendor::new("XenVMMXenVMM", "Xen HVM", ""),
    ];
    assert(table@ =~= spec_vendor_list());
    table
}

/// The vendor that the description `id` belongs to: the first entry of the
/// vendor table whose substring `id` holds.
pub open spec fn spec_find(id: Seq<char>) -> Option<Vendor> {
    spec_lookup(spec_vendor_list(), id, Rule::Substring)
}

/// The name of the vendor that the description `id` belongs to.
pub open spec fn spec_get_name(id: Seq<char>) -> Option<&'static str> {
    match spec_find(id) {
        Some(v) => Some(v.name),
        None => None,
    }
}

/// The home page of the vendor that the description `id` belongs to.
pub open spec fn spec_get_url(id: Seq<char>) -> Option<&'static str> {
    match spec_find(id) {
        Some(v) => Some(v.url),
        None => None,
    }
}

/// Returns the name of the vendor that the description `id` belongs to, or
/// `None` if no entry of the vendor table matches.
#[must_use]
pub fn get_name(id: &str) -> (name: Option<&'static str>)
    ensures
        name == spec_get_name(id@),
{
    let table = vendor_list();
    match lookup(&table, id, Rule::Substring) {
        Some(v) => Some(v.name),
        None => None,
    }
}

/// Returns the home page of the vendor that the description `id` belongs to,
/// or `None` if no entry of the vendor table matches. The page of a vendor
/// without one is the empty string.
#[must_use]
pub fn get_url(id: &str) -> (url: Option<&'static str>)
    ensures
        url == spec_get_url(id@),
{
    let table = vendor_list();
    match lookup(&table, id, Rule::Substring) {
        Some(v) => Some(v.url),
        None => None,
    }
}

} // verus!
