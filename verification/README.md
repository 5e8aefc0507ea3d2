# platform-win

Adaptador Win32 de RustCapture: la barra flotante con su bandeja, el
overlay de selección de región con lupa, el editor y la ventana de dibujo,
el portapapeles, los hotkeys globales, el catálogo de fuentes y la
herramienta que genera los atlas de iconos y el `.ico` del programa.

## Organización

- `src/` es la biblioteca, verificada con Verus: todo lo que estas piezas
  deciden o calculan — geometría de la barra, del editor y del overlay,
  máquinas de estados de la selección, del editor y del dibujo, conversión
  de píxeles, bloques CF_DIB, iconos tintados, nombres de fuentes, el
  catálogo ordenado, hotkeys, tema, y el ensamblado de atlas, DIB e `.ico`.
  Cada función pública lleva su contrato y las propiedades que relacionan
  varias (ida y vuelta, inversas, invariantes) están probadas como
  funciones `proof` cuyo nombre empieza por `ley_`.
- `app/` es el código Win32 que rodea a la biblioteca: la barra, la
  bandeja, el overlay, GDI, registro, disco, portapapeles, hotkeys y la
  rasterización de SVG. Le pide a la biblioteca cada decisión y se limita
  a llamar al sistema. Las ventanas del editor y de dibujo necesitan además
  el motor de anotación, que vive fuera de este paquete.
- `tests/` ejercita la biblioteca con valores concretos.

El único código de confianza son las llamadas a `String::push` y al
decodificador de `png`, cada una detrás de una función pequeña con su
contrato declarado.
