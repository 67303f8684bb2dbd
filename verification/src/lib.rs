//! Economics of a residential photovoltaic installation.
//!
//! The crate models a catalog of purchasable equipment (panels, batteries,
//! inverters), a user selection of catalog entries together with market and
//! physical parameters, and the pure calculations derived from them: summed
//! power, cost and area, the orientation-dependent derating of the annual
//! yield, the self-consumption split, the combined yearly benefit, the
//! payback period, and the compound-interest value of an alternative
//! fixed-deposit investment.
//!
//! All quantities are integers in fixed-point units:
//!
//! * money: ten-thousandths of a euro (1 EUR = 10 000 units);
//! * energy: watt-hours; rated power: watt-peak; panel dimensions:
//!   centimeters;
//! * specific yield: kWh per kWp per year (a plain integer);
//! * efficiency factors: per mille (1000 = no derating);
//! * interest rates: basis points (1/10 000 per year);
//! * payback periods: hundredths of a year.

pub mod analysis;
pub mod catalog;
pub mod components;
pub mod economics;
pub mod orientation;
