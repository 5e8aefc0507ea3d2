//! Lógica pura del adaptador Win32 de RustCapture: geometría de la barra,
//! del editor y del overlay, conversión de píxeles, iconos tintados,
//! nombres de fuentes y el ensamblado de assets. Todo verificado con Verus;
//! las llamadas al sistema viven fuera de esta biblioteca.

pub mod bytes;
pub mod pixels;
pub mod clipboard;
pub mod texto;
pub mod mensajes;
pub mod nombres;
pub mod aritmetica;
pub mod dpi;
pub mod geometria;
pub mod gdi;
pub mod layout;
pub mod iconos;
pub mod botonera;
pub mod boton;
pub mod barra;
pub mod editor;
pub mod ventana_editor;
pub mod dibujo;
pub mod anotacion;
pub mod overlay;
pub mod seleccion;
pub mod color;
pub mod props;
pub mod tema;
pub mod fuentes;
pub mod catalogo;
pub mod ventanas;
pub mod hotkeys;
pub mod activos;
