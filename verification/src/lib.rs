//! Checked FidelityFX upscaler policy for Windows/DX12: descriptor construction,
//! resource validation, dispatch gating and native-context lifecycle decisions.
#![allow(non_camel_case_types)]
#![allow(non_snake_case)]

pub mod abi;
pub mod context;
pub mod dispatch;
pub mod error;
pub mod inspect;
pub mod loader;
pub mod text;
pub mod upscaler;
