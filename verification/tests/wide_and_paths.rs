use game_optimizer::gpu::gpu_pref_value;
use game_optimizer::model::GpuPreference;
use game_optimizer::paths::exe_file_name;
use game_optimizer::wide::{reg_sz_data, reg_sz_from_data, to_wide};

#[test]
fn wide_strings_are_utf16_with_a_terminating_nul() {
    assert_eq!(to_wide(""), vec![0u16]);
    assert_eq!(to_wide("A€"), vec![0x41u16, 0x20AC, 0]);
    assert_eq!(to_wide("😀"), vec![0xD83Du16, 0xDE00, 0]);
    let expected: Vec<u16> = "SysMain".encode_utf16().chain(std::iter::once(0)).collect();
    assert_eq!(to_wide("SysMain"), expected);
}

#[test]
fn registry_strings_round_trip() {
    let bytes = reg_sz_data("GpuPreference=2;");
    assert_eq!(bytes.len(), 34);
    assert_eq!(&bytes[..4], &[b'G', 0, b'p', 0]);
    assert_eq!(&bytes[32..], &[0, 0]);
    assert_eq!(reg_sz_from_data(&bytes), "GpuPreference=2;");
    assert_eq!(reg_sz_from_data(&reg_sz_data("Grafik ☃ 😀")), "Grafik ☃ 😀");
    assert_eq!(reg_sz_from_data(&reg_sz_data("")), "");
}

#[test]
fn registry_bytes_are_decoded_lossily() {
    // an unpaired high surrogate, then 'A', then an odd trailing byte 'B'
    assert_eq!(reg_sz_from_data(&[0x3D, 0xD8, 0x41, 0x00, 0x42]), "\u{FFFD}AB");
    // trailing NULs are dropped, inner ones kept
    assert_eq!(reg_sz_from_data(&[0x41, 0, 0, 0, 0x42, 0, 0, 0, 0, 0]), "A\0B");
    assert_eq!(reg_sz_from_data(&[]), "");
}

#[test]
fn gpu_preference_values() {
    assert_eq!(gpu_pref_value(&GpuPreference::Default), None);
    assert_eq!(gpu_pref_value(&GpuPreference::PowerSaving), Some("GpuPreference=1;".to_string()));
    assert_eq!(gpu_pref_value(&GpuPreference::HighPerformance), Some("GpuPreference=2;".to_string()));
}

#[test]
fn executable_file_names() {
    assert_eq!(exe_file_name("C:\\Games\\DCS World\\bin\\DCS.exe"), "DCS.exe");
    assert_eq!(exe_file_name("D:/Steam/steamapps/common/F1 24/F1_24.exe"), "F1_24.exe");
    assert_eq!(exe_file_name("game.exe"), "game.exe");
    assert_eq!(exe_file_name("C:\\Games\\"), "Games");
    assert_eq!(exe_file_name("C:\\Games\\.\\"), "Games");
    assert_eq!(exe_file_name("C:\\Games\\.."), "");
    assert_eq!(exe_file_name("C:\\"), "");
    assert_eq!(exe_file_name("C:"), "");
    assert_eq!(exe_file_name("C:game.exe"), "game.exe");
    assert_eq!(exe_file_name(""), "");
    assert_eq!(exe_file_name("\\\\server\\share"), "");
    assert_eq!(exe_file_name("\\\\server\\share\\"), "");
    assert_eq!(exe_file_name("\\\\server\\share\\Games\\DCS.exe"), "DCS.exe");
    assert_eq!(exe_file_name("\\\\server"), "server");
    assert_eq!(exe_file_name("\\\\?\\C:\\Games\\DCS.exe"), "DCS.exe");
    assert_eq!(exe_file_name("\\\\?\\C:"), "");
    assert_eq!(exe_file_name("\\\\?\\UNC\\server\\share"), "");
    assert_eq!(exe_file_name("\\\\?\\UNC\\server\\share\\a.exe"), "a.exe");
    assert_eq!(exe_file_name("\\\\?\\C:\\Games\\."), "");
    assert_eq!(exe_file_name("\\\\?\\C:\\Games/DCS.exe"), "Games/DCS.exe");
    assert_eq!(exe_file_name("\\\\.\\COM1"), "");
    assert_eq!(exe_file_name("\\\\.\\pipe\\x"), "x");
}
