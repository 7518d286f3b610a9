pub mod bod;
pub mod bwc;
pub mod gbs;
pub mod gga;
pub mod gsa;
pub mod gsv;
pub mod gll;
pub mod gns;
pub mod hdt;
pub mod rma;
pub mod rmb;
pub mod rmc;
pub mod stn;
pub mod utils;
pub mod vbw;
pub mod vtg;
pub mod wpl;
